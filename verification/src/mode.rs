//! The supervision modes and the observed status of the privileged service.

use vstd::prelude::*;

verus! {

/// How the core process is currently supervised.  Exactly one value holds at
/// any instant; every transition goes through the lifecycle coordinator or a
/// supervisor acting on its behalf.
#[derive(Clone, Copy, Debug, PartialEq, Eq, Structural)]
pub enum RunningMode {
    /// No core process is supervised.
    NotRunning,
    /// The core runs as a child process owned by the host application.
    Sidecar,
    /// The core runs under the separately-installed privileged service.
    Service,
}

/// Status of the privileged-service subsystem, as reported by the service
/// gateway.  This library only observes it; it never owns it.
#[derive(Clone, Copy, Debug, PartialEq, Eq, Structural)]
pub enum ServiceStatus {
    /// The service is installed and answering.
    Ready,
    /// The service is installed but not currently usable.
    NotReady,
    /// The service state could not be determined.
    Unknown,
}

/// The strategy `start_core` resolves to for a given gateway status: the
/// privileged service when and only when the gateway reports `Ready`,
/// otherwise the sidecar fallback.
pub open spec fn spec_resolve_mode(status: ServiceStatus) -> RunningMode {
    if status == ServiceStatus::Ready {
        RunningMode::Service
    } else {
        RunningMode::Sidecar
    }
}

/// Resolve the target supervision mode from an observed gateway status.
pub fn resolve_mode(status: ServiceStatus) -> (mode: RunningMode)
    ensures
        mode == spec_resolve_mode(status),
{
    match status {
        ServiceStatus::Ready => RunningMode::Service,
        _ => RunningMode::Sidecar,
    }
}

} // verus!
