//! Bounded retry with exponential back-off and jitter.

use crate::error::ErrorKind;
use vstd::prelude::*;

verus! {

/// The first delay of the standard policy, in milliseconds.
pub const BASE_DELAY_MILLIS: u64 = 100;

/// The attempts that the standard policy grants one operation.
pub const MAX_ATTEMPTS: u32 = 3;

/// No delay is longer than this, in milliseconds.
pub const MAX_DELAY_MILLIS: u64 = 4_294_967_295;

/// `base` doubled `times` times.
pub open spec fn doubled(base: nat, times: nat) -> nat
    decreases times,
{
    if times == 0 {
        base
    } else {
        2 * doubled(base, (times - 1) as nat)
    }
}

/// What to do after a failed attempt.
#[derive(Clone, Copy, Debug, PartialEq, Eq, Structural)]
pub enum Decision {
    /// Wait at most `delay_millis`, then attempt again.
    Retry { delay_millis: u64 },
    /// Report the failure as it is.
    GiveUp,
}

/// How often one operation is attempted, and how long to wait in between.
/// A policy holds no state: the caller counts the failed attempts.
#[derive(Clone, Copy, Debug, PartialEq, Eq, Structural)]
pub struct RetryPolicy {
    pub base_delay_millis: u64,
    pub max_attempts: u32,
}

impl RetryPolicy {
    /// The wait before the next attempt, once `failures` attempts have
    /// failed: the base delay after the first failure, twice the delay each
    /// time after, never more than [`MAX_DELAY_MILLIS`].
    pub open spec fn delay_after(self, failures: nat) -> nat {
        let doublings = if failures >= 1 {
            (failures - 1) as nat
        } else {
            0
        };
        let exact = doubled(self.base_delay_millis as nat, doublings);
        if exact <= MAX_DELAY_MILLIS {
            exact
        } else {
            MAX_DELAY_MILLIS as nat
        }
    }

    /// Another attempt is due: the failure is transient and attempts are left.
    pub open spec fn grants_retry(self, failures: nat, kind: ErrorKind) -> bool {
        kind == ErrorKind::Transient && failures < self.max_attempts
    }

    /// The decision after the `failures`-th failed attempt, of kind `kind`.
    pub open spec fn decision(self, failures: nat, kind: ErrorKind) -> Decision {
        if self.grants_retry(failures, kind) {
            Decision::Retry { delay_millis: self.delay_after(failures) as u64 }
        } else {
            Decision::GiveUp
        }
    }

    /// Three attempts, 100 ms before the second, 200 ms before the third.
    pub fn standard() -> (policy: RetryPolicy)
        ensures
            policy.base_delay_millis == BASE_DELAY_MILLIS,
            policy.max_attempts == MAX_ATTEMPTS,
    {
        RetryPolicy { base_delay_millis: BASE_DELAY_MILLIS, max_attempts: MAX_ATTEMPTS }
    }

    /// Computes [`RetryPolicy::delay_after`].
    pub fn backoff_millis(&self, failures: u32) -> (delay: u64)
        ensures
            delay == self.delay_after(failures as nat),
            delay <= MAX_DELAY_MILLIS,
    {
        let mut delay: u64 = if self.base_delay_millis <= MAX_DELAY_MILLIS {
            self.base_delay_millis
        } else {
            MAX_DELAY_MILLIS
        };
        let mut done: u32 = 1;
        while done < failures
            invariant
                1 <= done,
                done <= failures || (failures == 0 && done == 1),
                delay <= MAX_DELAY_MILLIS,
                delay == self.delay_after(done as nat),
            decreases failures - done,
        {
            assert(doubled(self.base_delay_millis as nat, done as nat) == 2 * doubled(
                self.base_delay_millis as nat,
                (done - 1) as nat,
            ));
            delay = if delay > MAX_DELAY_MILLIS / 2 {
                MAX_DELAY_MILLIS
            } else {
                2 * delay
            };
            done += 1;
        }
        delay
    }

    /// Decides what follows the `failures`-th failed attempt.
    pub fn decide(&self, failures: u32, kind: ErrorKind) -> (decision: Decision)
        ensures
            decision == self.decision(failures as nat, kind),
    {
        match kind {
            ErrorKind::Transient => {
                if failures < self.max_attempts {
                    Decision::Retry { delay_millis: self.backoff_millis(failures) }
                } else {
                    Decision::GiveUp
                }
            },
            _ => Decision::GiveUp,
        }
    }
}

/// Scales a delay by a random factor through `tokio_retry::strategy::jitter`,
/// which multiplies the duration by a number drawn from `[0, 1)`. Trusted: the
/// result is not longer than the delay. Nothing else is known of it.
#[verifier::external_body]
fn jitter_millis(delay_millis: u64) -> (jittered: u64)
    requires
        delay_millis <= MAX_DELAY_MILLIS,
    ensures
        jittered <= delay_millis,
{
    let delay = std::time::Duration::from_millis(delay_millis);
    tokio_retry::strategy::jitter(delay).as_millis() as u64
}

/// A random share of `delay_millis`: the wait that a retry really takes.
pub fn jittered_delay(delay_millis: u64) -> (jittered: u64)
    ensures
        jittered <= delay_millis,
{
    if delay_millis <= MAX_DELAY_MILLIS {
        jitter_millis(delay_millis)
    } else {
        jitter_millis(MAX_DELAY_MILLIS)
    }
}

/// A failure that is not transient is never retried, and no operation is
/// attempted more often than the policy allows.
pub proof fn lemma_retry_is_bounded(policy: RetryPolicy, failures: nat, kind: ErrorKind)
    ensures
        kind != ErrorKind::Transient ==> policy.decision(failures, kind) == Decision::GiveUp,
        failures >= policy.max_attempts ==> policy.decision(failures, kind) == Decision::GiveUp,
{
}

/// Each delay is twice the one before, until the cap is reached.
pub proof fn lemma_delay_doubles(policy: RetryPolicy, failures: nat)
    requires
        failures >= 1,
        2 * policy.delay_after(failures) <= MAX_DELAY_MILLIS,
    ensures
        policy.delay_after(failures + 1) == 2 * policy.delay_after(failures),
{
    assert(doubled(policy.base_delay_millis as nat, failures) == 2 * doubled(
        policy.base_delay_millis as nat,
        (failures - 1) as nat,
    ));
}

} // verus!
