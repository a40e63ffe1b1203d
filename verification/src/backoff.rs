//! The retry schedule: how long to wait after each consecutive failure.

use vstd::arithmetic::power2::{lemma2_to64, lemma2_to64_rest, lemma_pow2_strictly_increases, lemma_pow2_unfold, pow2};
use vstd::prelude::*;

verus! {

/// The bounds of the retry schedule, in milliseconds.
#[derive(Clone, Copy, Debug, PartialEq, Eq, Structural)]
pub struct Backoff {
    /// The wait after the first failure.
    pub initial: u64,
    /// The longest wait.
    pub max: u64,
}

/// The wait after the `failures`-th consecutive failure: the initial delay,
/// doubled once for each earlier failure and capped at the maximum. Before
/// any failure there is nothing to wait for.
pub open spec fn backoff_delay(policy: Backoff, failures: nat) -> nat {
    if failures == 0 {
        0
    } else {
        let doubled = policy.initial as nat * pow2((failures - 1) as nat);
        if doubled < policy.max {
            doubled
        } else {
            policy.max as nat
        }
    }
}

/// The count that follows `failures`; it stays at the largest `u64`.
pub open spec fn count_after(failures: u64) -> u64 {
    if failures < u64::MAX {
        (failures + 1) as u64
    } else {
        failures
    }
}

/// The wait that one more failure calls for, from the wait before it: the
/// initial delay after the first failure, then twice the wait before; capped
/// at the maximum either way.
pub open spec fn doubled_delay(policy: Backoff, retry: RetryState) -> u64 {
    if retry.failures == 0 {
        if policy.initial < policy.max {
            policy.initial
        } else {
            policy.max
        }
    } else if 2 * retry.delay < policy.max {
        (2 * retry.delay) as u64
    } else {
        policy.max
    }
}

/// The consecutive failures of the operation in progress and the wait that
/// the last of them called for.
#[derive(Clone, Copy, Debug, PartialEq, Eq, Structural)]
pub struct RetryState {
    /// Failures since the last success.
    pub failures: u64,
    /// The wait after the last failure, in milliseconds; 0 while there was none.
    pub delay: u64,
}

impl RetryState {
    /// The state with no failure.
    pub open spec fn fresh() -> RetryState {
        RetryState { failures: 0, delay: 0 }
    }

    /// The delay is the one the schedule gives for the count.
    pub open spec fn wf(self, policy: Backoff) -> bool {
        self.delay == backoff_delay(policy, self.failures as nat)
    }

    /// The state one more failure leads to.
    pub open spec fn after_failure(self, policy: Backoff) -> RetryState {
        let failures = count_after(self.failures);
        RetryState { failures, delay: backoff_delay(policy, failures as nat) as u64 }
    }

    /// A state with no failure.
    pub fn new() -> (r: RetryState)
        ensures
            r == RetryState::fresh(),
            forall|policy: Backoff| r.wf(policy),
    {
        RetryState { failures: 0, delay: 0 }
    }

    /// Counts one more failure and sets the wait it calls for.
    pub fn record_failure(&mut self, policy: &Backoff)
        requires
            old(self).wf(*policy),
        ensures
            *final(self) == old(self).after_failure(*policy),
            final(self).wf(*policy),
            final(self).delay == doubled_delay(*policy, *old(self)),
            old(self).delay <= final(self).delay <= policy.max,
            old(self).failures == 0 && policy.initial <= policy.max ==> final(self).delay
                == policy.initial,
    {
        proof {
            lemma_schedule(*policy, self.failures as nat);
            lemma_count_saturates(*policy);
            lemma2_to64();
        }
        let delay = if self.failures == 0 {
            if policy.initial < policy.max {
                policy.initial
            } else {
                policy.max
            }
        } else if self.delay >= policy.max - self.delay {
            policy.max
        } else {
            self.delay + self.delay
        };
        let failures = if self.failures < u64::MAX {
            self.failures + 1
        } else {
            self.failures
        };
        self.failures = failures;
        self.delay = delay;
    }

    /// Forgets the failures: the operation succeeded.
    pub fn reset(&mut self)
        ensures
            *final(self) == RetryState::fresh(),
    {
        self.failures = 0;
        self.delay = 0;
    }
}

/// The schedule step by step: no wait before the first failure, the initial
/// delay (capped) after it, and after each further failure twice the wait
/// before, capped. So the wait never shrinks from one failure to the next and
/// never passes the maximum.
pub proof fn lemma_schedule(policy: Backoff, failures: nat)
    ensures
        backoff_delay(policy, 0) == 0,
        backoff_delay(policy, 1) == if policy.initial < policy.max {
            policy.initial
        } else {
            policy.max
        },
        failures >= 1 ==> backoff_delay(policy, failures + 1) == if 2 * backoff_delay(
            policy,
            failures,
        ) < policy.max {
            2 * backoff_delay(policy, failures)
        } else {
            policy.max as nat
        },
        backoff_delay(policy, failures) <= backoff_delay(policy, failures + 1),
        backoff_delay(policy, failures) <= policy.max,
{
    lemma2_to64();
    assert(policy.initial * 1 == policy.initial);
    if failures >= 1 {
        let before = pow2((failures - 1) as nat);
        lemma_pow2_unfold(failures);
        assert(policy.initial * (2 * before) == 2 * (policy.initial * before))
            by (nonlinear_arith);
    }
}

/// Once the count can grow no further the wait has stopped growing too.
pub proof fn lemma_count_saturates(policy: Backoff)
    ensures
        backoff_delay(policy, u64::MAX as nat + 1) == backoff_delay(policy, u64::MAX as nat),
{
    let top = u64::MAX as nat;
    if policy.initial == 0 {
        assert(policy.initial * pow2(top) == 0) by (nonlinear_arith)
            requires
                policy.initial == 0,
        ;
        assert(policy.initial * pow2((top - 1) as nat) == 0) by (nonlinear_arith)
            requires
                policy.initial == 0,
        ;
    } else {
        lemma2_to64_rest();
        lemma_pow2_strictly_increases(64, (top - 1) as nat);
        lemma_pow2_strictly_increases(64, top);
        let low = pow2((top - 1) as nat);
        let high = pow2(top);
        assert(policy.initial * low >= low) by (nonlinear_arith)
            requires
                policy.initial >= 1,
                low >= 0,
        ;
        assert(policy.initial * high >= high) by (nonlinear_arith)
            requires
                policy.initial >= 1,
                high >= 0,
        ;
    }
}

/// The wait never shrinks as failures accumulate: for any two counts in
/// order, the later wait is at least the earlier one.
pub proof fn lemma_delay_non_decreasing(policy: Backoff, earlier: nat, later: nat)
    requires
        earlier <= later,
    ensures
        backoff_delay(policy, earlier) <= backoff_delay(policy, later) <= policy.max,
    decreases later - earlier,
{
    lemma_schedule(policy, later);
    if earlier < later {
        lemma_schedule(policy, (later - 1) as nat);
        lemma_delay_non_decreasing(policy, earlier, (later - 1) as nat);
    }
}

} // verus!
