//! Bounded retries with a fixed delay between attempts.

use vstd::prelude::*;

verus! {

/// Attempts allowed to one failing operation, unless configured otherwise.
pub const DEFAULT_MAX_RETRY: u32 = 3;

/// Milliseconds waited before another attempt, unless configured otherwise.
pub const DEFAULT_DELAY_MS: u64 = 1000;

/// What to do after a failed attempt.
#[derive(Debug, Clone, Copy, PartialEq, Eq, Structural)]
pub enum RetryDecision {
    /// Wait the delay, then try the same operation again.
    Retry,
    /// The budget is spent: give up on this operation.
    Exhausted,
}

/// A bounded attempt counter for one operation at a time. The counter starts
/// afresh when an operation completes, by success or by exhaustion.
#[derive(Debug, Clone, Copy)]
pub struct RetryPolicy {
    max_retry: u32,
    delay_ms: u64,
    attempts: u32,
}

pub struct RetryView {
    pub max_retry: nat,
    pub delay_ms: nat,
    /// Failed attempts of the current operation so far.
    pub attempts: nat,
}

impl RetryView {
    /// The counter stays below the bound between operations.
    pub open spec fn inv(self) -> bool {
        self.attempts == 0 || self.attempts < self.max_retry
    }

    /// The counter after one more failed attempt, and the decision it gives.
    pub open spec fn after_failure(self) -> (RetryView, RetryDecision) {
        if self.attempts + 1 < self.max_retry {
            (RetryView { attempts: self.attempts + 1, ..self }, RetryDecision::Retry)
        } else {
            (RetryView { attempts: 0, ..self }, RetryDecision::Exhausted)
        }
    }

    /// The counter once the current operation completed.
    pub open spec fn reset(self) -> RetryView {
        RetryView { attempts: 0, ..self }
    }
}

impl View for RetryPolicy {
    type V = RetryView;

    closed spec fn view(&self) -> RetryView {
        RetryView {
            max_retry: self.max_retry as nat,
            delay_ms: self.delay_ms as nat,
            attempts: self.attempts as nat,
        }
    }
}

impl RetryPolicy {
    /// A policy that allows `max_retry` attempts to an operation, `delay_ms` apart.
    pub fn new(max_retry: u32, delay_ms: u64) -> (r: Self)
        ensures
            r@ == (RetryView { max_retry: max_retry as nat, delay_ms: delay_ms as nat, attempts: 0 }),
    {
        RetryPolicy { max_retry, delay_ms, attempts: 0 }
    }

    pub fn max_retry(&self) -> (r: u32)
        ensures
            r == self@.max_retry,
    {
        self.max_retry
    }

    pub fn delay_ms(&self) -> (r: u64)
        ensures
            r == self@.delay_ms,
    {
        self.delay_ms
    }

    pub fn attempts(&self) -> (r: u32)
        ensures
            r == self@.attempts,
    {
        self.attempts
    }

    /// Counts one failed attempt and decides whether another is allowed.
    pub fn record_failure(&mut self) -> (r: RetryDecision)
        requires
            old(self)@.inv(),
        ensures
            (final(self)@, r) == old(self)@.after_failure(),
            final(self)@.inv(),
    {
        if self.attempts + 1 < self.max_retry {
            self.attempts = self.attempts + 1;
            RetryDecision::Retry
        } else {
            self.attempts = 0;
            RetryDecision::Exhausted
        }
    }

    /// Starts a fresh budget.
    pub fn reset(&mut self)
        ensures
            final(self)@ == old(self)@.reset(),
    {
        self.attempts = 0;
    }
}

impl Default for RetryPolicy {
    /// Three attempts, one second apart.
    fn default() -> (r: Self)
        ensures
            r@ == (RetryView {
                max_retry: DEFAULT_MAX_RETRY as nat,
                delay_ms: DEFAULT_DELAY_MS as nat,
                attempts: 0,
            }),
    {
        RetryPolicy::new(DEFAULT_MAX_RETRY, DEFAULT_DELAY_MS)
    }
}

/// The view after `n` failures in a row, starting from `r`.
pub open spec fn failures(r: RetryView, n: nat) -> (RetryView, RetryDecision)
    decreases n,
{
    if n <= 1 {
        r.after_failure()
    } else {
        failures(r, (n - 1) as nat).0.after_failure()
    }
}

/// From a fresh budget of `max_retry >= 1` attempts, every failure before the
/// `max_retry`-th asks for another attempt, and the `max_retry`-th gives up and
/// leaves a fresh budget: an operation that always fails is tried exactly
/// `max_retry` times.
pub proof fn lemma_exactly_max_attempts(r: RetryView, n: nat)
    requires
        r.attempts == 0,
        r.max_retry >= 1,
        1 <= n <= r.max_retry,
    ensures
        n < r.max_retry ==> failures(r, n).1 == RetryDecision::Retry && failures(r, n).0 == (
        RetryView { attempts: n, ..r }),
        n == r.max_retry ==> failures(r, n).1 == RetryDecision::Exhausted && failures(r, n).0
            == r,
    decreases n,
{
    if n > 1 {
        lemma_exactly_max_attempts(r, (n - 1) as nat);
    }
}

} // verus!
