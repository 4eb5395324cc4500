use compact_str::CompactString;
use core_lifecycle::config::CoreConfig;
use core_lifecycle::errors::CoreError;
use core_lifecycle::extstr::smart_as_str;
use core_lifecycle::extstr::smart_from_str;
use core_lifecycle::logs::LogStore;
use core_lifecycle::manager::CoreManager;
use core_lifecycle::manager::LogsQuery;
use core_lifecycle::manager::LogLevel;
use core_lifecycle::manager::OutputEvent;
use core_lifecycle::manager::StartDispatch;
use core_lifecycle::manager::StopAction;
use core_lifecycle::manager::sidecar_args;
use core_lifecycle::mode::RunningMode;
use core_lifecycle::mode::ServiceStatus;
use core_lifecycle::mode::resolve_mode;
use core_lifecycle::probe::ProbeDecision;
use core_lifecycle::probe::ReadinessProbe;

#[test]
fn stop_when_not_running_is_noop_success() {
    let mut m = CoreManager::new(100);
    let action = m.stop_core();
    assert_eq!(action, StopAction::Nothing);
    assert_eq!(m.get_running_mode(), RunningMode::NotRunning);
}

#[test]
fn stop_always_ends_not_running() {
    // The transition is committed before the delegate's own stop call is
    // made, so the mode is NotRunning even if that call then fails.
    let mut m = CoreManager::new(100);
    m.on_service_started();
    assert_eq!(m.get_running_mode(), RunningMode::Service);
    let action = m.stop_core();
    assert_eq!(action, StopAction::StopService);
    assert_eq!(m.get_running_mode(), RunningMode::NotRunning);
}

#[test]
fn spawn_installs_one_guard_and_stop_terminates_it() {
    let mut m = CoreManager::new(100);
    m.on_sidecar_spawned(4242);
    assert_eq!(m.get_running_mode(), RunningMode::Sidecar);
    let action = m.stop_core();
    assert_eq!(action, StopAction::TerminateChild(4242));
    assert_eq!(m.get_running_mode(), RunningMode::NotRunning);
}

#[test]
fn second_stop_observes_completed_first_stop() {
    let mut m = CoreManager::new(100);
    m.on_sidecar_spawned(7);
    let first = m.stop_core();
    assert_eq!(first, StopAction::TerminateChild(7));
    let second = m.stop_core();
    assert_eq!(second, StopAction::Nothing);
    assert_eq!(m.get_running_mode(), RunningMode::NotRunning);
}

#[test]
fn change_core_rejects_unknown_core_without_side_effects() {
    let m = CoreManager::new(100);
    let mut cfg = CoreConfig::new(None, None);
    let requested = smart_from_str("not-a-real-core");
    let r = m.change_core(&mut cfg, &requested);
    match r {
        Err(CoreError::InvalidCoreSelection { requested: req }) => {
            assert_eq!(smart_as_str(&req), "not-a-real-core");
        }
        _ => panic!("expected an invalid-core error"),
    }
    // Configuration still resolves to the default, and nothing ran.
    assert_eq!(smart_as_str(&cfg.get_valid_clash_core()), "verge-mihomo");
    assert_eq!(m.get_running_mode(), RunningMode::NotRunning);
}

#[test]
fn change_core_error_message_names_the_core() {
    let m = CoreManager::new(100);
    let mut cfg = CoreConfig::new(None, None);
    let requested = smart_from_str("not-a-real-core");
    let e = m.change_core(&mut cfg, &requested).unwrap_err();
    assert_eq!(e.message(), "Invalid clash core: not-a-real-core");
}

#[test]
fn change_core_commits_supported_core() {
    let m = CoreManager::new(100);
    let mut cfg = CoreConfig::new(None, None);
    let requested = smart_from_str("verge-mihomo-alpha");
    let r = m.change_core(&mut cfg, &requested);
    assert!(r.is_ok());
    assert_eq!(smart_as_str(&cfg.get_valid_clash_core()), "verge-mihomo-alpha");
}

#[test]
fn config_falls_back_to_default_for_invalid_selection() {
    let cfg = CoreConfig::new(Some(smart_from_str("bogus")), Some(true));
    assert_eq!(smart_as_str(&cfg.get_valid_clash_core()), "verge-mihomo");
    assert!(cfg.tun_mode_enabled());
    let cfg2 = CoreConfig::new(None, None);
    assert!(!cfg2.tun_mode_enabled());
}

#[test]
fn service_unavailable_resolves_to_sidecar() {
    let m = CoreManager::new(100);
    let target = resolve_mode(ServiceStatus::NotReady);
    assert_eq!(target, RunningMode::Sidecar);
    assert_eq!(m.start_dispatch(target), StartDispatch::ViaSidecar);
    let target2 = resolve_mode(ServiceStatus::Ready);
    assert_eq!(target2, RunningMode::Service);
    assert_eq!(m.start_dispatch(target2), StartDispatch::ViaService);
    assert_eq!(m.start_dispatch(RunningMode::NotRunning), StartDispatch::ViaSidecar);
}

#[test]
fn sidecar_arguments_point_at_directory_and_file() {
    let args = sidecar_args("/home/user/.config/app", "/home/user/.config/app/run.yaml");
    assert_eq!(
        args,
        vec![
            "-d".to_string(),
            "/home/user/.config/app".to_string(),
            "-f".to_string(),
            "/home/user/.config/app/run.yaml".to_string(),
        ]
    );
}

#[test]
fn output_lines_reach_store_and_sink() {
    let mut m = CoreManager::new(100);
    m.on_sidecar_spawned(11);
    let step = m.on_output_event(OutputEvent::Stdout(CompactString::from("listening on 7890")));
    assert!(!step.done);
    let sink = step.sink.expect("a line event is mirrored to the sink");
    assert_eq!(sink.level, LogLevel::Error);
    assert_eq!(sink.line.as_str(), "listening on 7890");
    let step2 = m.on_output_event(OutputEvent::Stderr(CompactString::from("warning: slow")));
    assert!(!step2.done);
    match m.get_clash_logs() {
        LogsQuery::Lines(lines) => {
            let text: Vec<&str> = lines.iter().map(|l| l.as_str()).collect();
            assert_eq!(text, vec!["listening on 7890", "warning: slow"]);
        }
        LogsQuery::AskService => panic!("sidecar logs come from the store"),
    }
}

#[test]
fn termination_with_exit_code_records_line_and_resets() {
    let mut m = CoreManager::new(100);
    m.on_sidecar_spawned(11);
    m.on_output_event(OutputEvent::Stdout(CompactString::from("starting")));
    let step = m.on_output_event(OutputEvent::Terminated { code: Some(1), signal: None });
    assert!(step.done);
    let sink = step.sink.expect("a termination is summarised to the sink");
    assert_eq!(sink.level, LogLevel::Info);
    assert_eq!(sink.line.as_str(), "Process terminated with code: 1");
    assert_eq!(m.get_running_mode(), RunningMode::NotRunning);
    match m.get_clash_logs() {
        LogsQuery::Lines(lines) => assert!(lines.is_empty()),
        LogsQuery::AskService => panic!("nothing runs, so the answer is empty"),
    }
}

#[test]
fn termination_after_stop_changes_nothing_further() {
    let mut m = CoreManager::new(100);
    m.on_sidecar_spawned(11);
    let action = m.stop_core();
    assert_eq!(action, StopAction::TerminateChild(11));
    // The reader observes the termination caused by the stop; the state is
    // already settled and stays settled.
    let step = m.on_output_event(OutputEvent::Terminated { code: None, signal: Some(15) });
    assert!(step.done);
    assert_eq!(step.sink.unwrap().line.as_str(), "Process terminated by signal: 15");
    assert_eq!(m.get_running_mode(), RunningMode::NotRunning);
    match m.get_clash_logs() {
        LogsQuery::Lines(lines) => assert!(lines.is_empty()),
        LogsQuery::AskService => panic!("nothing runs, so the answer is empty"),
    }
}

#[test]
fn probe_timeout_leaves_sidecar_running() {
    // Service unavailable: the start resolved to Sidecar and the spawn
    // succeeded, but the control endpoint never appears.
    let mut m = CoreManager::new(100);
    let target = resolve_mode(ServiceStatus::Unknown);
    assert_eq!(target, RunningMode::Sidecar);
    m.on_sidecar_spawned(99);
    let mut probe = ReadinessProbe::new("run.yaml".to_string());
    let warned = loop {
        match probe.poll(false) {
            ProbeDecision::PollAgain { .. } => continue,
            ProbeDecision::TimedOut => break true,
            ProbeDecision::Found { .. } => break false,
        }
    };
    // The probe ends with a warning; the already-returned start is not
    // affected and the core stays supervised as a sidecar.
    assert!(warned);
    assert_eq!(m.get_running_mode(), RunningMode::Sidecar);
}

#[test]
fn ignored_stream_events_change_nothing() {
    let mut m = CoreManager::new(100);
    m.on_sidecar_spawned(3);
    let step = m.on_output_event(OutputEvent::Other);
    assert!(!step.done);
    assert!(step.sink.is_none());
    assert_eq!(m.get_running_mode(), RunningMode::Sidecar);
}

#[test]
fn service_mode_delegates_log_retrieval() {
    let mut m = CoreManager::new(100);
    m.on_service_started();
    assert!(matches!(m.get_clash_logs(), LogsQuery::AskService));
}

#[test]
fn log_store_keeps_only_most_recent_lines() {
    let mut store = LogStore::new(2);
    store.append_log(CompactString::from("one"));
    store.append_log(CompactString::from("two"));
    store.append_log(CompactString::from("three"));
    let lines = store.get_logs();
    let text: Vec<&str> = lines.iter().map(|l| l.as_str()).collect();
    assert_eq!(text, vec!["two", "three"]);
    store.clear_logs();
    assert!(store.get_logs().is_empty());
}

#[test]
fn error_messages_carry_their_detail() {
    let e = CoreError::ConfigGeneration { detail: "disk full".to_string() };
    assert_eq!(e.message(), "Failed to generate config: disk full");
    let e2 = CoreError::ProcessSpawn { detail: "binary missing".to_string() };
    assert_eq!(e2.message(), "Failed to spawn core process: binary missing");
}
