//! The wait-for-service retry machine.
//!
//! When a privileged traffic-interception feature is requested, startup
//! first waits — bounded — for the service gateway to report `Ready`.  One
//! attempt is: query the status; if it is already `Ready`, succeed; else
//! call the gateway's idempotent `init`, then `refresh` (its result is
//! ignored), then query the status again.  Every `init` failure counts as
//! transient.  Attempts repeat at a fixed interval until the elapsed budget
//! is spent; spending it is not an error — the wait gives up silently and
//! mode selection falls back to the sidecar strategy.

use crate::mode::ServiceStatus;
use vstd::arithmetic::div_mod::lemma_div_is_ordered;
use vstd::arithmetic::div_mod::lemma_div_multiples_vanish;
use vstd::prelude::*;

verus! {

/// The retry policy: a fixed poll interval and a total elapsed budget.
/// The production policy polls at a constant interval (a backoff whose
/// multiplier is one and whose maximum interval equals its initial one).
#[derive(Clone, Copy, Debug, PartialEq, Eq, Structural)]
pub struct BackoffPolicy {
    /// Milliseconds slept between attempts.
    pub interval_ms: u64,
    /// Total milliseconds the wait may spend before giving up.
    pub max_elapsed_ms: u64,
}

impl BackoffPolicy {
    /// A policy must sleep some positive time between attempts.
    pub open spec fn wf(&self) -> bool {
        1 <= self.interval_ms
    }
}

/// What the wait does next after one attempt.
#[derive(Clone, Copy, Debug, PartialEq, Eq, Structural)]
pub enum WaitDecision {
    /// The gateway is ready; the wait is over.
    Ready,
    /// Sleep this many milliseconds, then attempt again.
    RetryAfter(u64),
    /// The budget is spent; give up silently.
    GaveUp,
}

/// Whether one attempt reached a ready gateway: either the first status
/// query already said `Ready`, or `init` succeeded and the re-check said
/// `Ready`.  (When the first query says `Ready`, no further call is made
/// and the remaining arguments are irrelevant.)
pub open spec fn spec_attempt_succeeds(
    first: ServiceStatus,
    init_ok: bool,
    second: ServiceStatus,
) -> bool {
    first == ServiceStatus::Ready || (init_ok && second == ServiceStatus::Ready)
}

/// The state of one bounded wait for the service gateway.
pub struct ServiceWait {
    policy: BackoffPolicy,
    elapsed_ms: u64,
    retries: u64,
}

impl ServiceWait {
    /// The policy the wait was started with.
    pub closed spec fn spec_policy(&self) -> BackoffPolicy {
        self.policy
    }

    /// Milliseconds of budget spent so far.
    pub closed spec fn spec_elapsed(&self) -> u64 {
        self.elapsed_ms
    }

    /// Number of sleeps taken so far.
    pub closed spec fn spec_retries(&self) -> u64 {
        self.retries
    }

    /// The elapsed time is exactly the sleeps taken, and never exceeds the
    /// budget.
    pub open spec fn wf(&self) -> bool {
        &&& self.spec_policy().wf()
        &&& self.spec_elapsed() <= self.spec_policy().max_elapsed_ms
        &&& self.spec_elapsed() as int == self.spec_retries() as int
            * self.spec_policy().interval_ms as int
    }

    /// Start a bounded wait under `policy`.
    pub fn new(policy: BackoffPolicy) -> (w: ServiceWait)
        requires
            policy.wf(),
        ensures
            w.wf(),
            w.spec_policy() == policy,
            w.spec_elapsed() == 0,
            w.spec_retries() == 0,
    {
        ServiceWait { policy, elapsed_ms: 0, retries: 0 }
    }

    /// Decide what follows one attempt, whose outcome the driver observed:
    /// success ends the wait; otherwise the wait retries after the fixed
    /// interval while the budget allows it, and gives up once it does not.
    /// The spent budget never exceeds the configured maximum.
    pub fn wait_step(&mut self, first: ServiceStatus, init_ok: bool, second: ServiceStatus) -> (d:
        WaitDecision)
        requires
            old(self).wf(),
        ensures
            final(self).wf(),
            final(self).spec_policy() == old(self).spec_policy(),
            spec_attempt_succeeds(first, init_ok, second) ==> d == WaitDecision::Ready
                && final(self)@ == old(self)@,
            !spec_attempt_succeeds(first, init_ok, second) ==> {
                if old(self).spec_elapsed() + old(self).spec_policy().interval_ms
                    <= old(self).spec_policy().max_elapsed_ms {
                    &&& d == WaitDecision::RetryAfter(old(self).spec_policy().interval_ms)
                    &&& final(self).spec_elapsed() == old(self).spec_elapsed()
                        + old(self).spec_policy().interval_ms
                    &&& final(self).spec_retries() == old(self).spec_retries() + 1
                } else {
                    &&& d == WaitDecision::GaveUp
                    &&& final(self)@ == old(self)@
                }
            },
            final(self).spec_elapsed() <= final(self).spec_policy().max_elapsed_ms,
    {
        let ready_first = matches!(first, ServiceStatus::Ready);
        let ready_second = matches!(second, ServiceStatus::Ready);
        if ready_first || (init_ok && ready_second) {
            WaitDecision::Ready
        } else if self.policy.interval_ms <= self.policy.max_elapsed_ms - self.elapsed_ms {
            proof {
                let r0 = self.retries as int;
                let i0 = self.policy.interval_ms as int;
                let e0 = self.elapsed_ms as int;
                assert(r0 <= e0 && (r0 + 1) * i0 == e0 + i0) by (nonlinear_arith)
                    requires
                        e0 == r0 * i0,
                        i0 >= 1,
                        r0 >= 0,
                ;
            }
            self.elapsed_ms = self.elapsed_ms + self.policy.interval_ms;
            self.retries = self.retries + 1;
            WaitDecision::RetryAfter(self.policy.interval_ms)
        } else {
            WaitDecision::GaveUp
        }
    }
}

impl View for ServiceWait {
    type V = (u64, u64);

    /// The spent budget and the sleeps taken.
    open spec fn view(&self) -> (u64, u64) {
        (self.spec_elapsed(), self.spec_retries())
    }
}

/// The wait never blocks `start_core` beyond its configured budget: in
/// every reachable wait state the spent time is within the maximum, and
/// the number of sleeps taken is at most the budget divided by the
/// interval.
pub proof fn lemma_wait_within_budget(w: ServiceWait)
    requires
        w.wf(),
    ensures
        w.spec_elapsed() <= w.spec_policy().max_elapsed_ms,
        w.spec_retries() as int <= w.spec_policy().max_elapsed_ms as int
            / w.spec_policy().interval_ms as int,
{
    let r = w.spec_retries() as int;
    let i = w.spec_policy().interval_ms as int;
    let m = w.spec_policy().max_elapsed_ms as int;
    lemma_div_is_ordered(r * i, m, i);
    lemma_div_multiples_vanish(r, i);
    assert(r * i == i * r) by (nonlinear_arith);
}

} // verus!
