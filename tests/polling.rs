use gax::polling::{
    ExponentialBackoff, LimitedAttemptCount, LoopState, PollingBackoffPolicy, PollingPolicy,
};

#[test]
fn limited_attempts_continue_then_break() {
    let policy = LimitedAttemptCount::new(3);
    assert_eq!(policy.maximum_attempts(), 3);
    assert!(matches!(policy.on_error(0, 1, "e1"), LoopState::Continue("e1")));
    assert!(matches!(policy.on_error(0, 2, "e2"), LoopState::Continue("e2")));
    assert!(matches!(policy.on_error(0, 3, "e3"), LoopState::Break("e3")));
    assert!(matches!(policy.on_error(0, 9, "e9"), LoopState::Break("e9")));
}

#[test]
fn limited_attempts_is_pure() {
    let policy = LimitedAttemptCount::new(2);
    for attempt in 0..5u32 {
        let first = matches!(policy.on_error(17, attempt, ()), LoopState::Continue(()));
        let second = matches!(policy.on_error(17, attempt, ()), LoopState::Continue(()));
        assert_eq!(first, second);
    }
}

#[test]
fn zero_attempts_always_break() {
    let policy = LimitedAttemptCount::new(0);
    assert!(matches!(policy.on_error(0, 0, 1), LoopState::Break(1)));
}

#[test]
fn exponential_backoff_grows_to_the_maximum() {
    let policy = ExponentialBackoff::new(100, 1000, 2);
    let waits: Vec<u64> = (0..7u32).map(|a| policy.wait_period(0, a)).collect();
    assert_eq!(waits, vec![100, 100, 200, 400, 800, 1000, 1000]);
    assert_eq!(policy.wait_period(0, 40), 1000);
    assert_eq!(policy.wait_period(0, u32::MAX), 1000);
}

#[test]
fn backoff_waits_are_bounded_and_repeatable() {
    let policy = ExponentialBackoff::new(3, 50, 3);
    for attempt in 0..100u32 {
        let wait = policy.wait_period(5, attempt);
        assert!(wait <= 50);
        assert_eq!(wait, policy.wait_period(5, attempt));
    }
    assert_eq!(policy.wait_period(0, 3), 27);
}

#[test]
fn backoff_edge_factors() {
    let constant = ExponentialBackoff::new(40, 1000, 1);
    assert_eq!(constant.wait_period(0, u32::MAX), 40);
    let vanishing = ExponentialBackoff::new(40, 1000, 0);
    assert_eq!(vanishing.wait_period(0, 1), 40);
    assert_eq!(vanishing.wait_period(0, 2), 0);
    let capped = ExponentialBackoff::new(5000, 1000, 2);
    assert_eq!(capped.wait_period(0, 0), 1000);
    let huge = ExponentialBackoff::new(u64::MAX / 2, u64::MAX, u32::MAX);
    assert_eq!(huge.wait_period(0, 2), u64::MAX);
}
