use core_lifecycle::backoff::BackoffPolicy;
use core_lifecycle::mode::ServiceStatus;
use core_lifecycle::backoff::ServiceWait;
use core_lifecycle::backoff::WaitDecision;
use core_lifecycle::probe::PROBE_INTERVAL_MS;
use core_lifecycle::probe::PROBE_SETTLE_MS;
use core_lifecycle::probe::ProbeDecision;
use core_lifecycle::probe::RELOAD_DELAY_MS;
use core_lifecycle::probe::ReadinessProbe;
use core_lifecycle::textfmt::i32_to_string;
use core_lifecycle::textfmt::termination_message;
use core_lifecycle::textfmt::u64_to_string;

#[test]
fn probe_polls_at_most_fifty_times() {
    // 10s at 200ms: the probe takes at most 50 polls, then times out.
    let mut probe = ReadinessProbe::new("run.yaml".to_string());
    let mut polls = 0u64;
    loop {
        match probe.poll(false) {
            ProbeDecision::PollAgain { sleep_ms } => {
                assert_eq!(sleep_ms, PROBE_INTERVAL_MS);
                polls += 1;
                assert!(polls <= 50);
            }
            ProbeDecision::TimedOut => break,
            ProbeDecision::Found { .. } => panic!("the endpoint never appeared"),
        }
    }
    assert_eq!(polls, 50);
    // Once timed out, it stays timed out.
    assert!(matches!(probe.poll(false), ProbeDecision::TimedOut));
}

#[test]
fn probe_found_schedules_settle_and_forced_reload() {
    let mut probe = ReadinessProbe::new("/tmp/run.yaml".to_string());
    assert!(matches!(probe.poll(false), ProbeDecision::PollAgain { .. }));
    match probe.poll(true) {
        ProbeDecision::Found { settle_ms, reload_delay_ms, force_reload } => {
            assert_eq!(settle_ms, PROBE_SETTLE_MS);
            assert_eq!(reload_delay_ms, RELOAD_DELAY_MS);
            assert!(force_reload);
        }
        _ => panic!("the endpoint was there"),
    }
    assert_eq!(probe.config_path(), "/tmp/run.yaml");
}

#[test]
fn wait_never_exceeds_its_elapsed_budget() {
    // 1s budget at 200ms: five sleeps, then the wait gives up silently.
    let policy = BackoffPolicy { interval_ms: 200, max_elapsed_ms: 1000 };
    let mut wait = ServiceWait::new(policy);
    let mut sleeps = 0u64;
    loop {
        match wait.wait_step(ServiceStatus::NotReady, true, ServiceStatus::NotReady) {
            WaitDecision::RetryAfter(ms) => {
                assert_eq!(ms, 200);
                sleeps += 1;
                assert!(sleeps * 200 <= 1000);
            }
            WaitDecision::GaveUp => break,
            WaitDecision::Ready => panic!("the gateway never became ready"),
        }
    }
    assert_eq!(sleeps, 5);
}

#[test]
fn wait_budget_not_divisible_by_interval_still_holds() {
    // 1s budget at 300ms: sleeps end at 900ms, a fourth would overrun.
    let policy = BackoffPolicy { interval_ms: 300, max_elapsed_ms: 1000 };
    let mut wait = ServiceWait::new(policy);
    let mut sleeps = 0u64;
    while let WaitDecision::RetryAfter(_) =
        wait.wait_step(ServiceStatus::NotReady, false, ServiceStatus::NotReady)
    {
        sleeps += 1;
    }
    assert_eq!(sleeps, 3);
}

#[test]
fn wait_with_interval_beyond_budget_gives_up_at_once() {
    let policy = BackoffPolicy { interval_ms: 2000, max_elapsed_ms: 1000 };
    let mut wait = ServiceWait::new(policy);
    let d = wait.wait_step(ServiceStatus::NotReady, false, ServiceStatus::NotReady);
    assert_eq!(d, WaitDecision::GaveUp);
}

#[test]
fn wait_ends_as_soon_as_the_gateway_is_ready() {
    let policy = BackoffPolicy { interval_ms: 500, max_elapsed_ms: 5000 };
    let mut wait = ServiceWait::new(policy);
    // Already ready on the first status query.
    let d = wait.wait_step(ServiceStatus::Ready, false, ServiceStatus::Unknown);
    assert_eq!(d, WaitDecision::Ready);
    // Ready only after a successful init.
    let d2 = wait.wait_step(ServiceStatus::NotReady, true, ServiceStatus::Ready);
    assert_eq!(d2, WaitDecision::Ready);
}

#[test]
fn wait_treats_init_failure_as_transient() {
    let policy = BackoffPolicy { interval_ms: 500, max_elapsed_ms: 5000 };
    let mut wait = ServiceWait::new(policy);
    // init failed: the second status query is moot, the attempt retries.
    let d = wait.wait_step(ServiceStatus::NotReady, false, ServiceStatus::Ready);
    assert_eq!(d, WaitDecision::RetryAfter(500));
}

#[test]
fn decimal_rendering_is_exact() {
    assert_eq!(u64_to_string(0), "0");
    assert_eq!(u64_to_string(7), "7");
    assert_eq!(u64_to_string(90210), "90210");
    assert_eq!(i32_to_string(-123), "-123");
    assert_eq!(i32_to_string(i32::MIN), "-2147483648");
    assert_eq!(i32_to_string(i32::MAX), "2147483647");
}

#[test]
fn termination_messages_are_exact() {
    assert_eq!(
        termination_message(Some(1), None),
        "Process terminated with code: 1"
    );
    assert_eq!(
        termination_message(Some(-9), Some(9)),
        "Process terminated with code: -9"
    );
    assert_eq!(
        termination_message(None, Some(15)),
        "Process terminated by signal: 15"
    );
    assert_eq!(termination_message(None, None), "Process terminated");
}
