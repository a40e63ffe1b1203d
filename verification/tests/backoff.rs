use ark_indexer::backoff::{Backoff, RetryState};

#[test]
fn no_failure_means_no_wait() {
    let retry = RetryState::new();
    assert_eq!(retry, RetryState { failures: 0, delay: 0 });
}

#[test]
fn delay_doubles_from_the_initial_one() {
    let policy = Backoff { initial: 100, max: 10_000 };
    let mut retry = RetryState::new();
    let mut delays = Vec::new();
    for _ in 0..6 {
        retry.record_failure(&policy);
        delays.push(retry.delay);
    }
    assert_eq!(delays, vec![100, 200, 400, 800, 1600, 3200]);
    assert_eq!(retry.failures, 6);
}

#[test]
fn delay_is_capped_at_the_maximum() {
    let policy = Backoff { initial: 100, max: 500 };
    let mut retry = RetryState::new();
    let mut delays = Vec::new();
    for _ in 0..6 {
        retry.record_failure(&policy);
        delays.push(retry.delay);
    }
    assert_eq!(delays, vec![100, 200, 400, 500, 500, 500]);
}

#[test]
fn delay_never_shrinks_and_never_passes_the_maximum() {
    let policy = Backoff { initial: 3, max: 1_000_000_007 };
    let mut retry = RetryState::new();
    let mut last = 0;
    for round in 1..=200u64 {
        retry.record_failure(&policy);
        assert!(retry.delay >= last);
        assert!(retry.delay <= policy.max);
        assert_eq!(retry.failures, round);
        last = retry.delay;
    }
    assert_eq!(last, policy.max);
}

#[test]
fn reset_starts_the_schedule_over() {
    let policy = Backoff { initial: 250, max: 4000 };
    let mut retry = RetryState::new();
    retry.record_failure(&policy);
    retry.record_failure(&policy);
    retry.record_failure(&policy);
    assert_eq!(retry, RetryState { failures: 3, delay: 1000 });
    retry.reset();
    assert_eq!(retry, RetryState { failures: 0, delay: 0 });
    retry.record_failure(&policy);
    assert_eq!(retry, RetryState { failures: 1, delay: 250 });
}

#[test]
fn equal_bounds_give_a_constant_delay() {
    let policy = Backoff { initial: 700, max: 700 };
    let mut retry = RetryState::new();
    retry.record_failure(&policy);
    assert_eq!(retry.delay, 700);
    retry.record_failure(&policy);
    assert_eq!(retry.delay, 700);
}

#[test]
fn zero_initial_delay_stays_zero() {
    let policy = Backoff { initial: 0, max: 700 };
    let mut retry = RetryState::new();
    retry.record_failure(&policy);
    retry.record_failure(&policy);
    assert_eq!(retry, RetryState { failures: 2, delay: 0 });
}

#[test]
fn large_bounds_do_not_overflow() {
    let policy = Backoff { initial: u64::MAX / 2 + 1, max: u64::MAX };
    let mut retry = RetryState::new();
    retry.record_failure(&policy);
    assert_eq!(retry.delay, u64::MAX / 2 + 1);
    retry.record_failure(&policy);
    assert_eq!(retry.delay, u64::MAX);
    retry.record_failure(&policy);
    assert_eq!(retry.delay, u64::MAX);
}

#[test]
fn failure_count_stays_at_its_largest_value() {
    let policy = Backoff { initial: 1, max: 8 };
    let mut retry = RetryState { failures: u64::MAX, delay: 8 };
    retry.record_failure(&policy);
    assert_eq!(retry, RetryState { failures: u64::MAX, delay: 8 });
}
