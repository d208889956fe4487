use retry_backoff::random::{even_bit, odd_bit, rand_even_num, rand_odd_num, EvenBitOp, OddBitOp};
use retry_backoff::retry::{retry_fn, RetryErr};
use retry_backoff::sleep::RecordingSleeper;

#[test]
fn even_bit_always_accepts_the_draw() {
    let mut i: u32 = 0;
    while i < 50 {
        assert!(even_bit().is_ok());
        assert!(rand_even_num().is_ok());
        i += 1;
    }
}

#[test]
fn odd_bit_splits_draws_by_parity() {
    let mut i: u32 = 0;
    while i < 50 {
        match odd_bit() {
            Ok(n) => assert_eq!(n % 2, 1),
            Err(n) => assert_eq!(n % 2, 0),
        }
        match rand_odd_num() {
            Ok(n) => assert_eq!(n % 2, 1),
            Err(n) => assert_eq!(n % 2, 0),
        }
        i += 1;
    }
}

#[test]
fn retrying_the_even_draw_succeeds_without_sleeping() {
    let op = EvenBitOp;
    let mut sleeper = RecordingSleeper::new();
    let r = retry_fn(3, 1_000_000, &op, &mut sleeper);
    assert!(r.is_ok());
    assert_eq!(sleeper.log.len(), 0);
}

#[test]
fn retrying_the_odd_draw_yields_an_odd_number_or_exhaustion() {
    let op = OddBitOp;
    let mut sleeper = RecordingSleeper::new();
    match retry_fn(5, 1, &op, &mut sleeper) {
        Ok(n) => assert_eq!(n % 2, 1),
        Err(RetryErr::RetryFailed(n)) => {
            assert_eq!(n % 2, 0);
            assert_eq!(sleeper.log.len(), 4);
        }
        Err(RetryErr::NoAttempts) => unreachable!(),
    }
}
