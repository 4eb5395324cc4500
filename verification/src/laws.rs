//! The lifecycle guarantees that relate several operations, proved over
//! the same model transitions the executable methods are specified by.
//! Every operation runs under the coordinator's exclusive lock, so a
//! sequence of calls composes exactly as these transitions compose.

use crate::manager::EventModel;
use crate::manager::ManagerModel;
use crate::manager::StopAction;
use crate::manager::StartDispatch;
use crate::manager::spec_reader_event;
use crate::manager::spec_sidecar_spawned;
use crate::manager::spec_start_dispatch;
use crate::manager::spec_stop;
use crate::mode::RunningMode;
use crate::mode::ServiceStatus;
use crate::mode::spec_resolve_mode;
use vstd::prelude::*;

verus! {

/// Whatever sequence of calls came before, a stop leaves the mode at
/// `NotRunning` with no owned child and an empty log store — also when the
/// delegate's own stop call then fails, since the transition is committed
/// before that call is made.
pub proof fn lemma_stop_results_not_running(m: ManagerModel)
    ensures
        spec_stop(m).0.mode == RunningMode::NotRunning,
        spec_stop(m).0.child_pid is None,
        spec_stop(m).0.logs == Seq::<Seq<char>>::empty(),
{
}

/// A sidecar start installs exactly one child record, for the pid that was
/// spawned, and a subsequent stop answers with the termination of exactly
/// that pid.
pub proof fn lemma_spawn_then_stop_terminates_child(m: ManagerModel, pid: u32)
    ensures
        spec_sidecar_spawned(m, pid).child_pid == Some(pid),
        spec_stop(spec_sidecar_spawned(m, pid)).1 == StopAction::TerminateChild(pid),
{
}

/// Stops serialize: a stop that begins after another stop completed
/// observes the settled state — mode `NotRunning`, no child, empty logs —
/// never a half-applied one, and has nothing left to do.
pub proof fn lemma_stop_after_stop_observes_settled_state(m: ManagerModel)
    ensures
        spec_stop(spec_stop(m).0).0 == spec_stop(m).0,
        spec_stop(spec_stop(m).0).1 == StopAction::Nothing,
{
}

/// One termination event performs both the log-store clear and the
/// transition to `NotRunning`; and when a stop already settled the state,
/// the event that follows it changes the state no further, so clear and
/// transition happen effectively once however stop and termination
/// interleave.
pub proof fn lemma_termination_clears_and_resets(
    m: ManagerModel,
    cap: nat,
    code: Option<i32>,
    signal: Option<i32>,
)
    ensures
        spec_reader_event(m, cap, EventModel::Terminated { code, signal }).0.mode
            == RunningMode::NotRunning,
        spec_reader_event(m, cap, EventModel::Terminated { code, signal }).0.child_pid is None,
        spec_reader_event(m, cap, EventModel::Terminated { code, signal }).0.logs == Seq::<
            Seq<char>,
        >::empty(),
        spec_reader_event(spec_stop(m).0, cap, EventModel::Terminated { code, signal }).0
            == spec_stop(m).0,
{
}

/// When the service gateway is not ready — including after the bounded
/// wait spent its budget — mode selection falls back to the sidecar
/// strategy, and the start dispatches to the sidecar supervisor.
pub proof fn lemma_unready_gateway_starts_sidecar(status: ServiceStatus)
    requires
        status != ServiceStatus::Ready,
    ensures
        spec_resolve_mode(status) == RunningMode::Sidecar,
        spec_start_dispatch(spec_resolve_mode(status)) == StartDispatch::ViaSidecar,
{
}

} // verus!
