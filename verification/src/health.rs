//! The startup health barrier.
//!
//! After spawning the worker, the supervisor probes its liveness endpoint
//! once a second and blocks the rest of startup until the first success.
//! Any 2xx answer is healthy. The barrier gives up — fatally — after one
//! hundred consecutive failures. Issuing the HTTP probe is outside work;
//! its outcomes are handed in as booleans.

use vstd::prelude::*;

verus! {

/// Number of consecutive failed liveness probes after which startup fails.
/// With one probe per second the barrier gives up after about a hundred seconds.
pub const MAX_HEALTH_FAILURES: u32 = 100;

/// The fixed liveness probe that the barrier issues against the backend URI.
pub struct HealthProbe {
    /// Request method.
    pub method: String,
    /// Request path on the backend.
    pub path: String,
    /// Value of the `Host` header.
    pub host_header: String,
    /// Value of the `User-Agent` header.
    pub user_agent: String,
}

/// The liveness probe: GET `/-/health/live/` with `Host: localhost` and the
/// router's fixed user-agent.
pub fn health_probe() -> (r: HealthProbe)
    ensures
        r.method@ == "GET"@,
        r.path@ == "/-/health/live/"@,
        r.host_header@ == "localhost"@,
        r.user_agent@ == "goauthentik.io/router/healthcheck"@,
{
    HealthProbe {
        method: "GET".to_owned(),
        path: "/-/health/live/".to_owned(),
        host_header: "localhost".to_owned(),
        user_agent: "goauthentik.io/router/healthcheck".to_owned(),
    }
}

/// A probe answer counts as healthy exactly when its status is 2xx.
pub fn is_live_status(status: u16) -> (r: bool)
    ensures
        r == (200 <= status && status < 300),
{
    200 <= status && status < 300
}

/// Some probe among the first `n` succeeded.
pub open spec fn successful_probe_before(outcomes: Seq<bool>, n: int) -> bool {
    exists|j: int| 0 <= j < n && j < outcomes.len() && outcomes[j]
}

/// What one barrier step decided.
#[derive(Clone, Copy, Debug, PartialEq, Eq, Structural)]
pub enum BarrierStep {
    /// The probe succeeded: the barrier resolves and startup proceeds.
    Resolved,
    /// The probe failed: try again after the next one-second tick.
    Retry,
    /// The probe failed for the hundredth time: startup is fatal.
    Exhausted,
}

/// The barrier's running state: how many probes have failed so far.
pub struct HealthBarrier {
    /// Count of failed probes; never exceeds [`MAX_HEALTH_FAILURES`].
    pub failed_checks: u32,
}

impl HealthBarrier {
    /// A fresh barrier with no failures recorded.
    pub fn new() -> (r: HealthBarrier)
        ensures
            r.failed_checks == 0,
    {
        HealthBarrier { failed_checks: 0 }
    }

    /// Feeds one probe outcome to the barrier. A success resolves the barrier at
    /// once; a failure is counted, and the hundredth exhausts the barrier.
    pub fn step(&mut self, probe_ok: bool) -> (r: BarrierStep)
        requires
            old(self).failed_checks < MAX_HEALTH_FAILURES,
        ensures
            probe_ok ==> r == BarrierStep::Resolved && *final(self) == *old(self),
            !probe_ok ==> final(self).failed_checks == old(self).failed_checks + 1,
            !probe_ok ==> r == (if old(self).failed_checks + 1 == MAX_HEALTH_FAILURES {
                BarrierStep::Exhausted
            } else {
                BarrierStep::Retry
            }),
    {
        if probe_ok {
            BarrierStep::Resolved
        } else {
            self.failed_checks = self.failed_checks + 1;
            if self.failed_checks == MAX_HEALTH_FAILURES {
                BarrierStep::Exhausted
            } else {
                BarrierStep::Retry
            }
        }
    }
}

/// How a whole run of the barrier ended.
#[derive(Clone, Copy, Debug, PartialEq, Eq, Structural)]
pub enum BarrierResult {
    /// The barrier resolved on probe number `attempts` (counted from one).
    Healthy { attempts: usize },
    /// The first hundred probes all failed; startup is fatal.
    GivenUp,
}

/// Runs the health barrier over the given probe outcomes, in order: resolves at
/// the first success, gives up after one hundred failures. `outcomes` models
/// what the liveness endpoint would answer on each successive probe; at
/// least a hundred answers must be supplied so that the run is decided.
#[verifier::loop_isolation(false)]
pub fn barrier_outcome(outcomes: &Vec<bool>) -> (r: BarrierResult)
    requires
        outcomes@.len() >= MAX_HEALTH_FAILURES,
    ensures
        r is GivenUp <==> !successful_probe_before(outcomes@, MAX_HEALTH_FAILURES as int),
        r matches BarrierResult::Healthy { attempts } ==> 1 <= attempts
            <= MAX_HEALTH_FAILURES && outcomes@[attempts - 1]
            && !successful_probe_before(outcomes@, attempts - 1),
{
    let mut barrier = HealthBarrier::new();
    let mut i: usize = 0;
    while i < MAX_HEALTH_FAILURES as usize
        invariant
            0 <= i <= MAX_HEALTH_FAILURES,
            barrier.failed_checks == i,
            forall|j: int| 0 <= j < i ==> !outcomes@[j],
        decreases MAX_HEALTH_FAILURES - i,
    {
        match barrier.step(outcomes[i]) {
            BarrierStep::Resolved => {
                return BarrierResult::Healthy { attempts: i + 1 };
            }
            BarrierStep::Retry => {
                i = i + 1;
            }
            BarrierStep::Exhausted => {
                return BarrierResult::GivenUp;
            }
        }
    }
    BarrierResult::GivenUp
}

/// Health-barrier bound: the barrier never resolves later than any successful
/// probe. If probe `k` (counted from one, within the barrier's budget)
/// succeeds, the barrier resolves after at most `k` probes — with one probe a
/// second, within about `k` seconds.
pub proof fn lemma_health_barrier_bound(outcomes: Seq<bool>, attempts: int, k: int)
    requires
        1 <= attempts <= MAX_HEALTH_FAILURES,
        attempts - 1 < outcomes.len(),
        outcomes[attempts - 1],
        !successful_probe_before(outcomes, attempts - 1),
        1 <= k <= MAX_HEALTH_FAILURES,
        k - 1 < outcomes.len(),
        outcomes[k - 1],
    ensures
        attempts <= k,
{
    if k < attempts {
        assert(successful_probe_before(outcomes, attempts - 1));
    }
}

} // verus!
