//! Bounded retry with a fixed pause between attempts.

use vstd::prelude::*;

verus! {

/// How often a store call is repeated after it failed, and how long to wait
/// before each repetition. The first attempt is always made, so a call is
/// tried `retries + 1` times at most.
#[derive(Clone, Copy, PartialEq, Eq, Debug, Structural)]
pub struct RetryPolicy {
    pub retries: u32,
    pub delay_ms: u64,
}

/// What to do once an attempt has come back.
#[derive(Clone, Copy, PartialEq, Eq, Debug, Structural)]
pub enum Verdict {
    /// The attempt succeeded; the call is over.
    Succeeded,
    /// The attempt failed and another one is due after the pause.
    RetryAfter { delay_ms: u64 },
    /// The attempt failed and none is left.
    Exhausted,
}

impl RetryPolicy {
    /// The largest number of attempts this policy allows for one call.
    pub open spec fn attempts(self) -> int {
        self.retries + 1
    }

    /// The verdict on an attempt that followed `retried` repetitions.
    pub open spec fn verdict(self, retried: u32, succeeded: bool) -> Verdict {
        if succeeded {
            Verdict::Succeeded
        } else if retried < self.retries {
            Verdict::RetryAfter { delay_ms: self.delay_ms }
        } else {
            Verdict::Exhausted
        }
    }

    /// The pause before the attempt that follows `retried` repetitions:
    /// none before the first, the fixed delay before every other.
    pub open spec fn pause(self, retried: u32) -> u64 {
        if retried == 0 {
            0
        } else {
            self.delay_ms
        }
    }

    /// Three attempts, ten milliseconds apart.
    pub fn standard() -> (policy: RetryPolicy)
        ensures
            policy == (RetryPolicy { retries: 2, delay_ms: 10 }),
            policy.attempts() == 3,
    {
        RetryPolicy { retries: 2, delay_ms: 10 }
    }

    /// Judges one attempt: stop on the first success, repeat a failure
    /// while repetitions are left, give up after the last.
    pub fn judge(&self, retried: u32, succeeded: bool) -> (verdict: Verdict)
        ensures
            verdict == self.verdict(retried, succeeded),
    {
        if succeeded {
            Verdict::Succeeded
        } else if retried < self.retries {
            Verdict::RetryAfter { delay_ms: self.delay_ms }
        } else {
            Verdict::Exhausted
        }
    }

    /// The pause owed before an attempt, in milliseconds.
    pub fn pause_before(&self, retried: u32) -> (ms: u64)
        ensures
            ms == self.pause(retried),
    {
        if retried == 0 {
            0
        } else {
            self.delay_ms
        }
    }
}

} // verus!
