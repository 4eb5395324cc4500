//! The readiness prober.
//!
//! After a sidecar spawn, a detached task polls for the core's control
//! endpoint (a local socket path) at a fixed short interval, up to a
//! bounded timeout.  When the endpoint appears the prober waits a short
//! settle delay, issues a read-only warm-up call against the control API
//! (its result is ignored), and schedules a further-delayed forced reload
//! of the runtime configuration to close the race with a core that has not
//! fully applied its configuration yet.  If the endpoint never appears the
//! prober records a warning and ends; the original `start_core` call has
//! long returned and is not affected.

use vstd::prelude::*;

verus! {

/// Milliseconds between two polls for the control endpoint.
pub const PROBE_INTERVAL_MS: u64 = 200;

/// Total milliseconds the prober may poll before giving up.
pub const PROBE_TIMEOUT_MS: u64 = 10000;

/// Milliseconds the prober settles after first seeing the endpoint.
pub const PROBE_SETTLE_MS: u64 = 200;

/// Milliseconds the scheduled corrective reload is delayed.
pub const RELOAD_DELAY_MS: u64 = 500;

/// The most polls a probe can take: its timeout over its interval.
pub const MAX_PROBE_POLLS: u64 = PROBE_TIMEOUT_MS / PROBE_INTERVAL_MS;

/// What the prober does after one look at the control endpoint.
#[derive(Clone, Copy, Debug, PartialEq, Eq, Structural)]
pub enum ProbeDecision {
    /// The endpoint is not there yet; sleep this long and look again.
    PollAgain { sleep_ms: u64 },
    /// The endpoint appeared: settle, make the warm-up call, and schedule
    /// the corrective reload this much later, forced.
    Found { settle_ms: u64, reload_delay_ms: u64, force_reload: bool },
    /// The timeout elapsed without the endpoint appearing; record a
    /// warning and end the probe.
    TimedOut,
}

/// The state of one readiness probe.
pub struct ReadinessProbe {
    config_path: String,
    polls: u64,
}

impl ReadinessProbe {
    /// The runtime configuration file the corrective reload re-issues.
    pub closed spec fn spec_config_path(&self) -> Seq<char> {
        self.config_path@
    }

    /// How many polls were taken so far.
    pub closed spec fn spec_polls(&self) -> u64 {
        self.polls
    }

    /// The probe never polls beyond its timeout.
    pub open spec fn wf(&self) -> bool {
        self.spec_polls() <= MAX_PROBE_POLLS
    }

    /// Start a probe for the control endpoint; `config_path` is the
    /// runtime configuration file the corrective reload will re-issue.
    pub fn new(config_path: String) -> (p: ReadinessProbe)
        ensures
            p.wf(),
            p.spec_polls() == 0,
            p.spec_config_path() == config_path@,
    {
        ReadinessProbe { config_path, polls: 0 }
    }

    /// The runtime configuration file the corrective reload re-issues.
    pub fn config_path(&self) -> (r: &String)
        ensures
            r@ == self.spec_config_path(),
    {
        &self.config_path
    }

    /// Decide what follows one look at the control endpoint, which the
    /// driver observed to exist or not: found endpoints lead to the settle
    /// and the scheduled forced reload; a missing one is polled again at
    /// the fixed interval until the timeout is spent, and then the probe
    /// ends with a warning.
    pub fn poll(&mut self, endpoint_exists: bool) -> (d: ProbeDecision)
        requires
            old(self).wf(),
        ensures
            final(self).wf(),
            final(self).spec_config_path() == old(self).spec_config_path(),
            old(self).spec_polls() >= MAX_PROBE_POLLS && !endpoint_exists ==> d
                == ProbeDecision::TimedOut && final(self).spec_polls() == old(self).spec_polls(),
            old(self).spec_polls() < MAX_PROBE_POLLS && !endpoint_exists ==> d
                == (ProbeDecision::PollAgain { sleep_ms: PROBE_INTERVAL_MS })
                && final(self).spec_polls() == old(self).spec_polls() + 1,
            endpoint_exists ==> d == (ProbeDecision::Found {
                settle_ms: PROBE_SETTLE_MS,
                reload_delay_ms: RELOAD_DELAY_MS,
                force_reload: true,
            }) && final(self).spec_polls() == old(self).spec_polls(),
            final(self).spec_polls() <= MAX_PROBE_POLLS,
    {
        if endpoint_exists {
            ProbeDecision::Found {
                settle_ms: PROBE_SETTLE_MS,
                reload_delay_ms: RELOAD_DELAY_MS,
                force_reload: true,
            }
        } else if self.polls < MAX_PROBE_POLLS {
            self.polls = self.polls + 1;
            ProbeDecision::PollAgain { sleep_ms: PROBE_INTERVAL_MS }
        } else {
            ProbeDecision::TimedOut
        }
    }
}

/// The probe never polls beyond its configured timeout: in every reachable
/// probe state at most fifty polls were taken, and the time they cover is
/// within the timeout.
pub proof fn lemma_probe_within_timeout(p: ReadinessProbe)
    requires
        p.wf(),
    ensures
        p.spec_polls() <= 50,
        p.spec_polls() as int * PROBE_INTERVAL_MS as int <= PROBE_TIMEOUT_MS as int,
{
    assert(MAX_PROBE_POLLS == 50);
    assert(p.spec_polls() as int * 200 <= 50 * 200) by (nonlinear_arith)
        requires
            p.spec_polls() <= 50,
    ;
}

} // verus!
