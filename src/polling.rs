//! Policies consulted by a loop that polls a long-running operation.
//!
//! After each failed attempt the loop asks a [`PollingPolicy`] whether to go on,
//! and a [`PollingBackoffPolicy`] how long to wait before the next attempt.
//! Times are whole milliseconds: the loop's start on the caller's monotonic
//! clock, and the wait itself.
use vstd::prelude::*;

verus! {

/// The decision taken after a failed attempt: try again, or stop. Either way
/// the error of the attempt is kept.
pub enum LoopState<E> {
    Continue(E),
    Break(E),
}

/// Decides, after a failed attempt, whether the loop tries again.
pub trait PollingPolicy<E> {
    /// The decision after attempt number `attempt_count` failed with `error`,
    /// in a loop that started at `loop_start_ms`.
    fn on_error(&self, loop_start_ms: u64, attempt_count: u32, error: E) -> LoopState<E>;
}

/// Computes how long the loop waits before its next attempt.
pub trait PollingBackoffPolicy {
    /// The wait, in milliseconds, before the attempt that follows attempt
    /// number `attempt_count`, in a loop that started at `loop_start_ms`.
    fn wait_period(&self, loop_start_ms: u64, attempt_count: u32) -> u64;
}

/// The decision of a policy that allows `maximum_attempts` attempts.
pub open spec fn attempt_decision<E>(maximum_attempts: u32, attempt_count: u32, error: E) -> LoopState<E> {
    if attempt_count < maximum_attempts {
        LoopState::Continue(error)
    } else {
        LoopState::Break(error)
    }
}

/// A polling policy that stops once a number of attempts have failed.
pub struct LimitedAttemptCount {
    maximum_attempts: u32,
}

impl LimitedAttemptCount {
    /// A policy that allows `maximum_attempts` attempts in all.
    pub fn new(maximum_attempts: u32) -> (r: LimitedAttemptCount)
        ensures
            r.maximum() == maximum_attempts,
    {
        LimitedAttemptCount { maximum_attempts }
    }

    /// The number of attempts this policy allows.
    pub closed spec fn maximum(&self) -> u32 {
        self.maximum_attempts
    }

    /// The number of attempts this policy allows.
    pub fn maximum_attempts(&self) -> (r: u32)
        ensures
            r == self.maximum(),
    {
        self.maximum_attempts
    }
}

impl<E> PollingPolicy<E> for LimitedAttemptCount {
    fn on_error(&self, loop_start_ms: u64, attempt_count: u32, error: E) -> (r: LoopState<E>)
        ensures
            r == attempt_decision(self.maximum(), attempt_count, error),
    {
        if attempt_count < self.maximum_attempts {
            LoopState::Continue(error)
        } else {
            LoopState::Break(error)
        }
    }
}

/// The smaller of two numbers.
pub open spec fn smaller(a: nat, b: nat) -> nat {
    if a <= b {
        a
    } else {
        b
    }
}

/// The wait after attempt number `attempt`: `initial` after the first one
/// (and before any), then `scaling` times the wait before, never more than
/// `maximum`.
pub open spec fn backoff_delay(initial: nat, maximum: nat, scaling: nat, attempt: nat) -> nat
    decreases attempt,
{
    if attempt <= 1 {
        smaller(initial, maximum)
    } else {
        smaller(backoff_delay(initial, maximum, scaling, (attempt - 1) as nat) * scaling, maximum)
    }
}

/// A backoff policy whose waits grow by a whole factor up to a ceiling.
pub struct ExponentialBackoff {
    initial_delay_ms: u64,
    maximum_delay_ms: u64,
    scaling: u32,
}

impl ExponentialBackoff {
    /// A policy that first waits `initial_delay_ms`, multiplies the wait by
    /// `scaling` after each attempt, and never waits more than
    /// `maximum_delay_ms`.
    pub fn new(initial_delay_ms: u64, maximum_delay_ms: u64, scaling: u32) -> (r: ExponentialBackoff)
        ensures
            r.initial() == initial_delay_ms,
            r.maximum() == maximum_delay_ms,
            r.factor() == scaling,
    {
        ExponentialBackoff { initial_delay_ms, maximum_delay_ms, scaling }
    }

    /// The first wait.
    pub closed spec fn initial(&self) -> u64 {
        self.initial_delay_ms
    }

    /// The longest wait.
    pub closed spec fn maximum(&self) -> u64 {
        self.maximum_delay_ms
    }

    /// The factor between two waits.
    pub closed spec fn factor(&self) -> u32 {
        self.scaling
    }

    /// The wait after attempt number `attempt` under this policy.
    pub open spec fn delay(&self, attempt: nat) -> nat {
        backoff_delay(self.initial() as nat, self.maximum() as nat, self.factor() as nat, attempt)
    }
}

proof fn lemma_delay_at_most_maximum(initial: nat, maximum: nat, scaling: nat, attempt: nat)
    ensures
        backoff_delay(initial, maximum, scaling, attempt) <= maximum,
    decreases attempt,
{
    if attempt > 1 {
        lemma_delay_at_most_maximum(initial, maximum, scaling, (attempt - 1) as nat);
    }
}

proof fn lemma_delay_settles(initial: nat, maximum: nat, scaling: nat, from: nat, attempt: nat)
    requires
        1 <= from <= attempt,
        smaller(backoff_delay(initial, maximum, scaling, from) * scaling, maximum) == backoff_delay(
            initial,
            maximum,
            scaling,
            from,
        ),
    ensures
        backoff_delay(initial, maximum, scaling, attempt) == backoff_delay(
            initial,
            maximum,
            scaling,
            from,
        ),
    decreases attempt - from,
{
    if attempt > from {
        lemma_delay_settles(initial, maximum, scaling, from, (attempt - 1) as nat);
    }
}

/// Every wait of a backoff policy is a whole, non-negative number of
/// milliseconds, and none is longer than the policy's maximum.
pub proof fn lemma_wait_is_bounded(policy: ExponentialBackoff, attempt: nat)
    ensures
        0 <= policy.delay(attempt) <= policy.maximum(),
{
    lemma_delay_at_most_maximum(
        policy.initial() as nat,
        policy.maximum() as nat,
        policy.factor() as nat,
        attempt,
    );
}

impl PollingBackoffPolicy for ExponentialBackoff {
    fn wait_period(&self, loop_start_ms: u64, attempt_count: u32) -> (r: u64)
        ensures
            r == self.delay(attempt_count as nat),
    {
        let maximum = self.maximum_delay_ms;
        let mut delay: u64 = if self.initial_delay_ms <= maximum {
            self.initial_delay_ms
        } else {
            maximum
        };
        let mut attempt: u32 = 1;
        while attempt < attempt_count
            invariant
                1 <= attempt,
                attempt <= attempt_count || attempt == 1,
                maximum == self.maximum(),
                delay as nat == self.delay(attempt as nat),
            decreases attempt_count - attempt,
        {
            proof {
                assert((delay as u128) * (self.scaling as u128) <= 0xffff_ffff_ffff_ffffu128 * 0xffff_ffffu128)
                    by (nonlinear_arith)
                    requires
                        delay <= 0xffff_ffff_ffff_ffffu64,
                        self.scaling <= 0xffff_ffffu32,
                ;
            }
            let product: u128 = (delay as u128) * (self.scaling as u128);
            let next: u64 = if product <= maximum as u128 {
                product as u64
            } else {
                maximum
            };
            if next == delay {
                proof {
                    lemma_delay_settles(
                        self.initial() as nat,
                        self.maximum() as nat,
                        self.factor() as nat,
                        attempt as nat,
                        attempt_count as nat,
                    );
                }
                return delay;
            }
            delay = next;
            attempt = attempt + 1;
        }
        delay
    }
}

/// The decision of a polling policy is a function of its arguments: two
/// calls with the same arguments decide alike, whenever the loop started.
pub proof fn lemma_decision_is_pure<E>(
    policy: LimitedAttemptCount,
    first_start_ms: u64,
    second_start_ms: u64,
    attempt_count: u32,
    error: E,
    first: LoopState<E>,
    second: LoopState<E>,
)
    requires
        call_ensures(
            <LimitedAttemptCount as PollingPolicy<E>>::on_error,
            (&policy, first_start_ms, attempt_count, error),
            first,
        ),
        call_ensures(
            <LimitedAttemptCount as PollingPolicy<E>>::on_error,
            (&policy, second_start_ms, attempt_count, error),
            second,
        ),
    ensures
        first == second,
{
}

/// Every wait that a backoff policy returns, for any attempt count, is at most
/// the policy's maximum, and the same for the same arguments.
pub proof fn lemma_waits_are_bounded_and_pure(
    policy: ExponentialBackoff,
    loop_start_ms: u64,
    attempt_count: u32,
    first: u64,
    second: u64,
)
    requires
        call_ensures(
            <ExponentialBackoff as PollingBackoffPolicy>::wait_period,
            (&policy, loop_start_ms, attempt_count),
            first,
        ),
        call_ensures(
            <ExponentialBackoff as PollingBackoffPolicy>::wait_period,
            (&policy, loop_start_ms, attempt_count),
            second,
        ),
    ensures
        first <= policy.maximum(),
        first == second,
{
    lemma_wait_is_bounded(policy, attempt_count as nat);
}

} // verus!
