//! The lifecycle coordinator: the state machine behind `start_core`,
//! `stop_core`, `restart_core` and `change_core`.
//!
//! The coordinator owns the running mode, the record of the owned child
//! process, and the log store.  It performs no I/O itself: an async driver
//! queries the service gateway, generates configuration files, spawns and
//! terminates processes, and hands every observed outcome back to the
//! coordinator, which commits the state transition and answers with the
//! next action.  The driver keeps the coordinator behind one exclusive
//! lock, so `start_core`, `stop_core` and `restart_core` serialize.

use crate::config::CoreConfig;
use crate::config::is_valid_core;
use crate::config::spec_is_valid_core;
use crate::errors::CoreError;
use crate::extstr::SmartText;
use crate::extstr::compact_chars;
use crate::extstr::compact_clone;
use crate::extstr::compact_from_str;
use crate::extstr::smart_as_str;
use crate::extstr::smart_clone;
use crate::extstr::smart_chars;
use crate::logs::LogStore;
use crate::logs::spec_append;
use crate::mode::RunningMode;
use crate::textfmt::spec_termination_message;
use crate::textfmt::termination_message;
use compact_str::CompactString;
use vstd::prelude::*;

verus! {

/// Which supervisor `start_core` delegates to for a resolved target mode.
#[derive(Clone, Copy, Debug, PartialEq, Eq, Structural)]
pub enum StartDispatch {
    /// Delegate to the sidecar supervisor: spawn an owned child process.
    ViaSidecar,
    /// Delegate to the service delegate: run the core under the privileged
    /// service.
    ViaService,
}

/// What the driver must do to finish a `stop_core` call.
#[derive(Clone, Copy, Debug, PartialEq, Eq, Structural)]
pub enum StopAction {
    /// Release the child-process guard for this pid, terminating the
    /// process if it is still alive.
    TerminateChild(u32),
    /// Ask the service gateway to stop the managed core.
    StopService,
    /// Nothing was running; the stop is a no-op success.
    Nothing,
}

/// Severity of a line handed to the persistent log sink.
#[derive(Clone, Copy, Debug, PartialEq, Eq, Structural)]
pub enum LogLevel {
    Error,
    Warn,
    Info,
    Trace,
}

/// One event from the child's combined output stream, as the driver
/// observed it.
pub enum OutputEvent {
    /// A line of standard output.
    Stdout(CompactString),
    /// A line of standard error.
    Stderr(CompactString),
    /// The child terminated, with its exit code or signal when available.
    Terminated { code: Option<i32>, signal: Option<i32> },
    /// Any other stream event; ignored.
    Other,
}

/// A line to mirror to the persistent log sink.
pub struct SinkWrite {
    pub level: LogLevel,
    pub line: CompactString,
}

/// What the output reader must do after one stream event.
pub struct ReaderStep {
    /// A line to write to the persistent log sink, if any.
    pub sink: Option<SinkWrite>,
    /// Whether the stream is finished and the reader should stop.
    pub done: bool,
}

/// Where a `get_clash_logs` call finds its lines.
pub enum LogsQuery {
    /// The lines are these (sidecar mode, or empty when nothing runs).
    Lines(Vec<CompactString>),
    /// The privileged service owns the log sink; ask the gateway.
    AskService,
}

/// The coordinator's state, as contracts speak of it.
pub ghost struct ManagerModel {
    /// The current supervision mode.
    pub mode: RunningMode,
    /// The pid of the owned child process, present exactly while a sidecar
    /// child is supervised.
    pub child_pid: Option<u32>,
    /// The text of the stored output lines, oldest first.
    pub logs: Seq<Seq<char>>,
}

/// The model-level event a stream event amounts to.
pub ghost enum EventModel {
    /// A line of output (standard output and standard error are treated
    /// alike).
    Line(Seq<char>),
    /// The child terminated.
    Terminated { code: Option<i32>, signal: Option<i32> },
    /// An ignored stream event.
    Other,
}

/// The model of a reader step: the sink line's level and text, and whether
/// the reader stops.
pub ghost struct ReaderStepModel {
    pub sink: Option<(LogLevel, Seq<char>)>,
    pub done: bool,
}

/// What a stream event amounts to at the model level.
pub open spec fn spec_event_view(ev: OutputEvent) -> EventModel {
    match ev {
        OutputEvent::Stdout(line) => EventModel::Line(compact_chars(line)),
        OutputEvent::Stderr(line) => EventModel::Line(compact_chars(line)),
        OutputEvent::Terminated { code, signal } => EventModel::Terminated { code, signal },
        OutputEvent::Other => EventModel::Other,
    }
}

/// The model of a reader step.
pub open spec fn spec_reader_step_view(step: ReaderStep) -> ReaderStepModel {
    ReaderStepModel {
        sink: match step.sink {
            Some(w) => Some((w.level, compact_chars(w.line))),
            None => None,
        },
        done: step.done,
    }
}

/// The dispatch `start_core` makes for a resolved target mode: the service
/// delegate exactly when the target is `Service`, else the sidecar
/// supervisor.
pub open spec fn spec_start_dispatch(target: RunningMode) -> StartDispatch {
    if target == RunningMode::Service {
        StartDispatch::ViaService
    } else {
        StartDispatch::ViaSidecar
    }
}

/// What `stop_core` does to the state, and the action it answers with: the
/// log store is cleared unconditionally, the mode always comes to rest at
/// `NotRunning`, and the action names whichever supervisor matched the
/// mode that was current when the stop began.
pub open spec fn spec_stop(m: ManagerModel) -> (ManagerModel, StopAction) {
    let stopped = ManagerModel {
        mode: RunningMode::NotRunning,
        child_pid: None,
        logs: Seq::<Seq<char>>::empty(),
    };
    let action = match m.mode {
        RunningMode::Service => StopAction::StopService,
        RunningMode::Sidecar => match m.child_pid {
            Some(pid) => StopAction::TerminateChild(pid),
            None => StopAction::Nothing,
        },
        RunningMode::NotRunning => StopAction::Nothing,
    };
    (stopped, action)
}

/// What committing a successful sidecar spawn does to the state.
pub open spec fn spec_sidecar_spawned(m: ManagerModel, pid: u32) -> ManagerModel {
    ManagerModel { mode: RunningMode::Sidecar, child_pid: Some(pid), ..m }
}

/// What committing a successful service start does to the state.
pub open spec fn spec_service_started(m: ManagerModel) -> ManagerModel {
    ManagerModel { mode: RunningMode::Service, ..m }
}

/// What one output-stream event does to the state, and the step the reader
/// must take: a line is appended to the log store (under retention bound
/// `cap`) and mirrored to the sink; a termination is summarised to the
/// sink, clears the log store, resets the mode to `NotRunning` and releases
/// the child record; anything else is ignored.
pub open spec fn spec_reader_event(m: ManagerModel, cap: nat, ev: EventModel) -> (
    ManagerModel,
    ReaderStepModel,
) {
    match ev {
        EventModel::Line(text) => (
            ManagerModel { logs: spec_append(m.logs, cap, text), ..m },
            ReaderStepModel { sink: Some((LogLevel::Error, text)), done: false },
        ),
        EventModel::Terminated { code, signal } => (
            ManagerModel {
                mode: RunningMode::NotRunning,
                child_pid: None,
                logs: Seq::<Seq<char>>::empty(),
            },
            ReaderStepModel {
                sink: Some((LogLevel::Info, spec_termination_message(code, signal))),
                done: true,
            },
        ),
        EventModel::Other => (m, ReaderStepModel { sink: None, done: false }),
    }
}

/// The coordinator's invariant: a child record exists only while the mode
/// is `Sidecar`, and it is released before or atomically with every
/// transition away from `Sidecar`.
pub open spec fn spec_manager_inv(m: ManagerModel) -> bool {
    m.child_pid is Some ==> m.mode == RunningMode::Sidecar
}

/// The lifecycle coordinator.
pub struct CoreManager {
    mode: RunningMode,
    child_pid: Option<u32>,
    logs: LogStore,
}

impl View for CoreManager {
    type V = ManagerModel;

    closed spec fn view(&self) -> ManagerModel {
        ManagerModel { mode: self.mode, child_pid: self.child_pid, logs: self.logs@ }
    }
}

impl CoreManager {
    /// The retention bound of the owned log store.
    pub closed spec fn log_cap(&self) -> nat {
        self.logs.spec_capacity()
    }

    /// Well-formedness: the invariant holds and the log store respects its
    /// bound.
    pub open spec fn wf(&self) -> bool {
        &&& spec_manager_inv(self@)
        &&& 1 <= self.log_cap()
        &&& self@.logs.len() <= self.log_cap()
    }

    /// A fresh coordinator: nothing runs, no child is owned, the log store
    /// is empty and retains at most `log_capacity` lines.
    pub fn new(log_capacity: usize) -> (m: CoreManager)
        requires
            log_capacity >= 1,
        ensures
            m.wf(),
            m.log_cap() == log_capacity,
            m@.mode == RunningMode::NotRunning,
            m@.child_pid is None,
            m@.logs == Seq::<Seq<char>>::empty(),
    {
        CoreManager {
            mode: RunningMode::NotRunning,
            child_pid: None,
            logs: LogStore::new(log_capacity),
        }
    }

    /// The current supervision mode.
    pub fn get_running_mode(&self) -> (mode: RunningMode)
        ensures
            mode == self@.mode,
    {
        self.mode
    }

    /// Which supervisor `start_core` delegates to for the resolved target
    /// mode.
    pub fn start_dispatch(&self, target: RunningMode) -> (d: StartDispatch)
        ensures
            d == spec_start_dispatch(target),
    {
        match target {
            RunningMode::Service => StartDispatch::ViaService,
            _ => StartDispatch::ViaSidecar,
        }
    }

    /// Commit a successful sidecar spawn: record the owned child and enter
    /// `Sidecar` mode.  The driver calls this with the pid of the process
    /// it just spawned, after any previously owned child was stopped.
    pub fn on_sidecar_spawned(&mut self, pid: u32)
        requires
            old(self).wf(),
            old(self)@.child_pid is None,
        ensures
            final(self).wf(),
            final(self).log_cap() == old(self).log_cap(),
            final(self)@ == spec_sidecar_spawned(old(self)@, pid),
    {
        self.child_pid = Some(pid);
        self.mode = RunningMode::Sidecar;
    }

    /// Commit a successful service start: enter `Service` mode.  The
    /// driver calls this after the gateway accepted the core, and only
    /// while no child process is owned.
    pub fn on_service_started(&mut self)
        requires
            old(self).wf(),
            old(self)@.child_pid is None,
        ensures
            final(self).wf(),
            final(self).log_cap() == old(self).log_cap(),
            final(self)@ == spec_service_started(old(self)@),
    {
        self.mode = RunningMode::Service;
    }

    /// Stop whatever runs: clear the log store unconditionally, come to
    /// rest at `NotRunning` on every path, and answer with the action the
    /// driver must perform.  The mode is `NotRunning` afterwards even if
    /// that action then fails.
    pub fn stop_core(&mut self) -> (action: StopAction)
        requires
            old(self).wf(),
        ensures
            final(self).wf(),
            final(self).log_cap() == old(self).log_cap(),
            (final(self)@, action) == spec_stop(old(self)@),
            final(self)@.mode == RunningMode::NotRunning,
    {
        self.logs.clear_logs();
        let action = match self.mode {
            RunningMode::Service => StopAction::StopService,
            RunningMode::Sidecar => match self.child_pid {
                Some(pid) => StopAction::TerminateChild(pid),
                None => StopAction::Nothing,
            },
            RunningMode::NotRunning => StopAction::Nothing,
        };
        self.child_pid = None;
        self.mode = RunningMode::NotRunning;
        action
    }

    /// React to one event of the child's combined output stream: append
    /// and mirror a line; on termination record a summary line, clear the
    /// log store and reset the mode — whether the termination came from an
    /// explicit stop or from a crash.
    pub fn on_output_event(&mut self, ev: OutputEvent) -> (step: ReaderStep)
        requires
            old(self).wf(),
        ensures
            final(self).wf(),
            final(self).log_cap() == old(self).log_cap(),
            (final(self)@, spec_reader_step_view(step)) == spec_reader_event(
                old(self)@,
                old(self).log_cap(),
                spec_event_view(ev),
            ),
    {
        match ev {
            OutputEvent::Stdout(line) => {
                let mirror = compact_clone(&line);
                self.logs.append_log(line);
                ReaderStep { sink: Some(SinkWrite { level: LogLevel::Error, line: mirror }), done: false }
            },
            OutputEvent::Stderr(line) => {
                let mirror = compact_clone(&line);
                self.logs.append_log(line);
                ReaderStep { sink: Some(SinkWrite { level: LogLevel::Error, line: mirror }), done: false }
            },
            OutputEvent::Terminated { code, signal } => {
                let summary = termination_message(code, signal);
                let line = compact_from_str(summary.as_str());
                self.logs.clear_logs();
                self.child_pid = None;
                self.mode = RunningMode::NotRunning;
                ReaderStep { sink: Some(SinkWrite { level: LogLevel::Info, line }), done: true }
            },
            OutputEvent::Other => ReaderStep { sink: None, done: false },
        }
    }

    /// Where the current logs are: the gateway owns them in `Service`
    /// mode, the log store holds them in `Sidecar` mode, and nothing is
    /// running otherwise, so the answer is empty.
    pub fn get_clash_logs(&self) -> (q: LogsQuery)
        ensures
            match q {
                LogsQuery::Lines(lines) => {
                    &&& self@.mode != RunningMode::Service
                    &&& lines@.map_values(|c: CompactString| compact_chars(c)) == (
                        if self@.mode == RunningMode::Sidecar {
                            self@.logs
                        } else {
                            Seq::<Seq<char>>::empty()
                        })
                },
                LogsQuery::AskService => self@.mode == RunningMode::Service,
            },
    {
        match self.mode {
            RunningMode::Service => LogsQuery::AskService,
            RunningMode::Sidecar => LogsQuery::Lines(self.logs.get_logs()),
            RunningMode::NotRunning => {
                let empty: Vec<CompactString> = Vec::new();
                proof {
                    assert(empty@.map_values(|c: CompactString| compact_chars(c)) =~= Seq::<
                        Seq<char>,
                    >::empty());
                }
                LogsQuery::Lines(empty)
            },
        }
    }

    /// Change the selected core binary.  An identifier outside the
    /// allow-list is rejected with an `InvalidCoreSelection` error before
    /// any state is touched; a supported one is committed into the
    /// settings, after which the driver persists them, regenerates the
    /// runtime configuration file and applies it to the running core over
    /// its control API.
    pub fn change_core(&self, cfg: &mut CoreConfig, requested: &SmartText) -> (r: Result<
        (),
        CoreError,
    >)
        ensures
            spec_is_valid_core(smart_chars(*requested)) ==> {
                &&& r is Ok
                &&& final(cfg)@.clash_core == Some(smart_chars(*requested))
                &&& final(cfg)@.enable_tun_mode == old(cfg)@.enable_tun_mode
            },
            !spec_is_valid_core(smart_chars(*requested)) ==> {
                &&& final(cfg)@ == old(cfg)@
                &&& match r {
                    Ok(_) => false,
                    Err(e) => e matches CoreError::InvalidCoreSelection { requested: req }
                        && smart_chars(req) == smart_chars(*requested),
                }
            },
    {
        if !is_valid_core(smart_as_str(requested)) {
            return Err(CoreError::InvalidCoreSelection { requested: smart_clone(requested) });
        }
        cfg.set_clash_core(smart_clone(requested));
        Ok(())
    }
}

/// Build the argument list the core is spawned with: point it at the
/// working directory and at the generated configuration file.
pub fn sidecar_args(config_dir: &str, config_file: &str) -> (args: Vec<String>)
    ensures
        args@.len() == 4,
        args@[0]@ == "-d"@,
        args@[1]@ == config_dir@,
        args@[2]@ == "-f"@,
        args@[3]@ == config_file@,
{
    let mut args: Vec<String> = Vec::new();
    args.push(String::from_str("-d"));
    args.push(config_dir.to_owned());
    args.push(String::from_str("-f"));
    args.push(config_file.to_owned());
    args
}

} // verus!
