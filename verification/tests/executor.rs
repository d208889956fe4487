use retry_backoff::backoff::{delay_nanos, rotate_power};
use retry_backoff::operations::{AlwaysErr, AlwaysOk, EventuallyOk};
use retry_backoff::report::describe;
use retry_backoff::retry::{retry_fn, retry_fn_mut, RetryErr};
use retry_backoff::sleep::RecordingSleeper;

#[test]
fn zero_budget_shared_is_no_attempts() {
    let op = AlwaysErr { err: "x" };
    let mut sleeper = RecordingSleeper::new();
    let r: Result<u32, RetryErr<&str>> = retry_fn(0, 1_000_000, &op, &mut sleeper);
    assert_eq!(r, Err(RetryErr::NoAttempts));
    assert_eq!(sleeper.log.len(), 0);
}

#[test]
fn zero_budget_mut_is_no_attempts() {
    let mut op = EventuallyOk { fails_left: 4, value: 9 };
    let mut sleeper = RecordingSleeper::new();
    let r = retry_fn_mut(0, 1_000_000, &mut op, &mut sleeper);
    assert_eq!(r, Err(RetryErr::NoAttempts));
    assert_eq!(op.fails_left, 4);
    assert_eq!(sleeper.log.len(), 0);
}

#[test]
fn always_ok_calls_once_and_never_sleeps() {
    let op = AlwaysOk { value: 6u32 };
    let mut sleeper = RecordingSleeper::new();
    let r: Result<u32, RetryErr<&str>> = retry_fn(3, 1_000_000, &op, &mut sleeper);
    assert_eq!(r, Ok(6));
    assert_eq!(sleeper.log.len(), 0);
}

#[test]
fn exhausted_after_three_attempts_sleeps_twice() {
    let op = AlwaysErr { err: "x" };
    let mut sleeper = RecordingSleeper::new();
    let r: Result<u32, RetryErr<&str>> = retry_fn(3, 1_000_000, &op, &mut sleeper);
    assert_eq!(r, Err(RetryErr::RetryFailed("x")));
    assert_eq!(sleeper.log, vec![1_000_000u128, 2_000_000u128]);
}

#[test]
fn exhausted_single_attempt_never_sleeps() {
    let op = AlwaysErr { err: "x" };
    let mut sleeper = RecordingSleeper::new();
    let r: Result<u32, RetryErr<&str>> = retry_fn(1, 1_000_000, &op, &mut sleeper);
    assert!(matches!(r, Err(RetryErr::RetryFailed("x"))));
    assert_eq!(sleeper.log.len(), 0);
}

#[test]
fn exhausted_mut_counts_attempts() {
    let mut op = EventuallyOk { fails_left: 100, value: 9 };
    let mut sleeper = RecordingSleeper::new();
    let r = retry_fn_mut(3, 5, &mut op, &mut sleeper);
    assert_eq!(r, Err(RetryErr::RetryFailed(97)));
    assert_eq!(op.fails_left, 97);
    assert_eq!(sleeper.log, vec![5u128, 10u128]);
}

#[test]
fn eventual_success_uses_exactly_needed_attempts() {
    let mut op = EventuallyOk { fails_left: 2, value: 9 };
    let mut sleeper = RecordingSleeper::new();
    let r = retry_fn_mut(5, 10, &mut op, &mut sleeper);
    assert_eq!(r, Ok(9));
    assert_eq!(op.fails_left, 0);
    assert_eq!(sleeper.log, vec![10u128, 20u128]);
}

#[test]
fn backoff_doubles_then_wraps_after_32_failures() {
    let op = AlwaysErr { err: 0u8 };
    let mut sleeper = RecordingSleeper::new();
    let r: Result<u32, RetryErr<u8>> = retry_fn(34, 3, &op, &mut sleeper);
    assert!(matches!(r, Err(RetryErr::RetryFailed(0))));
    assert_eq!(sleeper.log.len(), 33);
    let mut i: usize = 0;
    while i < 32 {
        assert_eq!(sleeper.log[i], 3u128 << i);
        i += 1;
    }
    assert_eq!(sleeper.log[32], 3u128);
}

#[test]
fn repeated_success_keeps_the_outcome_variant() {
    let op = AlwaysOk { value: 8u32 };
    let mut sleeper = RecordingSleeper::new();
    let first: Result<u32, RetryErr<&str>> = retry_fn(4, 1_000_000, &op, &mut sleeper);
    let second: Result<u32, RetryErr<&str>> = retry_fn(4, 1_000_000, &op, &mut sleeper);
    assert_eq!(first, Ok(8));
    assert_eq!(second, Ok(8));
    assert_eq!(sleeper.log.len(), 0);
}

#[test]
fn delay_is_unit_times_power() {
    assert_eq!(delay_nanos(5, 4), 20);
    assert_eq!(delay_nanos(0, 7), 0);
    assert_eq!(
        delay_nanos(u64::MAX, u32::MAX),
        (u64::MAX as u128) * (u32::MAX as u128)
    );
}

#[test]
fn rotate_power_is_a_circular_shift() {
    assert_eq!(rotate_power(1), 2);
    assert_eq!(rotate_power(0x8000_0000), 1);
    assert_eq!(rotate_power(0xC000_0001), 0x8000_0003);
}

#[test]
fn describe_names_each_outcome() {
    let ok: Result<u32, RetryErr<&str>> = Ok(3);
    let none: Result<u32, RetryErr<&str>> = Err(RetryErr::NoAttempts);
    let failed: Result<u32, RetryErr<&str>> = Err(RetryErr::RetryFailed("x"));
    assert_eq!(describe(&ok), "retry successful");
    assert_eq!(describe(&none), "retry errored: no attempts were allowed");
    assert_eq!(describe(&failed), "retry errored: all attempts failed");
}
