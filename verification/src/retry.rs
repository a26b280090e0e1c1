//! Bounded retry with exponential backoff, for calls to remote services
//! that fail now and then.
//!
//! The caller makes the call. When it has failed, it asks here what to do:
//! wait and try again, or give up.

use vstd::prelude::*;

verus! {

/// How often a call is tried and how long the caller waits in between.
#[derive(Clone, Copy, Debug, PartialEq, Eq, Structural)]
pub struct Backoff {
    /// The wait after the first failure, in seconds.
    pub base_delay: u64,
    /// The number of attempts after which the caller gives up.
    pub max_attempts: u32,
}

/// What to do after a failed attempt.
#[derive(Clone, Copy, Debug, PartialEq, Eq, Structural)]
pub enum Retry {
    /// Wait for so many seconds, then try again.
    Wait { seconds: u64 },
    /// The attempts are used up: the failure is final.
    GiveUp,
}

/// Two to the power of `n`.
pub open spec fn pow2(n: nat) -> nat
    decreases n,
{
    if n == 0 {
        1
    } else {
        2 * pow2((n - 1) as nat)
    }
}

/// The wait after the attempt number `failures` has failed: the base
/// delay after the first, and twice the wait before after each further
/// one.
pub open spec fn delay_after(base_delay: u64, failures: nat) -> nat {
    if failures == 0 {
        0
    } else {
        (base_delay * pow2((failures - 1) as nat)) as nat
    }
}

/// `value`, but no more than the largest number of seconds that can be
/// told.
pub open spec fn capped(value: nat) -> u64 {
    if value > u64::MAX {
        u64::MAX
    } else {
        value as u64
    }
}

impl Backoff {
    /// What to do when `failures` attempts have failed.
    pub open spec fn decide(self, failures: u32) -> Retry {
        if failures >= self.max_attempts {
            Retry::GiveUp
        } else {
            Retry::Wait { seconds: capped(delay_after(self.base_delay, failures as nat)) }
        }
    }

    /// Says what to do when `failures` attempts have failed, the last of
    /// them just now: give up if that was the last attempt allowed, else
    /// wait, each time twice as long as the time before.
    pub fn after_failure(&self, failures: u32) -> (next: Retry)
        ensures
            next == self.decide(failures),
    {
        if failures >= self.max_attempts {
            return Retry::GiveUp;
        }
        if failures == 0 {
            return Retry::Wait { seconds: 0 };
        }
        let mut seconds: u64 = self.base_delay;
        let mut counted: u32 = 1;
        proof {
            let unit = pow2(0);
            assert(unit == 1);
            assert(self.base_delay * unit == self.base_delay) by (nonlinear_arith)
                requires
                    unit == 1,
            ;
            assert(delay_after(self.base_delay, 1) == self.base_delay);
        }
        while counted < failures
            invariant
                1 <= counted <= failures,
                seconds == capped(delay_after(self.base_delay, counted as nat)),
            decreases failures - counted,
        {
            proof {
                lemma_delay_doubles(self.base_delay, counted as nat);
            }
            seconds = if seconds > u64::MAX / 2 {
                u64::MAX
            } else {
                seconds * 2
            };
            counted += 1;
        }
        Retry::Wait { seconds }
    }
}

/// Each wait is twice the one before.
pub proof fn lemma_delay_doubles(base_delay: u64, failures: nat)
    requires
        failures >= 1,
    ensures
        delay_after(base_delay, failures + 1) == 2 * delay_after(base_delay, failures),
{
    let before = pow2((failures - 1) as nat);
    assert(pow2(failures) == 2 * before);
    assert(base_delay * (2 * before) == 2 * (base_delay * before)) by (nonlinear_arith);
}

/// The caller never makes more attempts than the policy allows: once that
/// many have failed there is no further wait.
pub proof fn lemma_attempts_are_bounded(policy: Backoff, failures: u32)
    ensures
        policy.decide(failures) is GiveUp <==> failures >= policy.max_attempts,
{
}

} // verus!
