//! The retry executor: a bounded sequential loop of invoke, check, sleep,
//! backoff.

use vstd::prelude::*;

use crate::backoff::{backoff_delays, delay_nanos, delay_of, power_at, rotate_power, rotated};
use crate::operation::{Operation, SharedOperation};
use crate::sleep::Sleeper;

verus! {

/// Why a retry call failed.
#[derive(Debug, PartialEq, Eq)]
pub enum RetryErr<E> {
    /// The attempt budget was zero: the operation was never invoked.
    NoAttempts,
    /// Every attempt failed; carries the error of the final attempt.
    RetryFailed(E),
}

/// How many sleeps a retry call that invoked the operation `n` times
/// performs: one between consecutive invocations, so none on a budget of
/// zero, none after the final attempt, and none after a success.
pub open spec fn sleep_count(n: nat) -> nat {
    if n == 0 {
        0
    } else {
        (n - 1) as nat
    }
}

/// What remains of a retry call on a mutating-capture operation once the
/// first invocation has returned `res` and left the operation in state
/// `mid`: `attempts` is the budget before that invocation (at least 1), `r`
/// the final outcome, `post` the final operation state, and `n` counts that
/// invocation and everything after it.
pub open spec fn retry_mut_trace_from<T, E, O: Operation<T, E>>(
    mid: O,
    res: Result<T, E>,
    post: O,
    attempts: nat,
    r: Result<T, RetryErr<E>>,
    n: nat,
) -> bool
    decreases attempts, 0nat,
{
    match res {
        Ok(v) => r == Ok::<T, RetryErr<E>>(v) && post == mid && n == 1,
        Err(e) => {
            if attempts <= 1 {
                r == Err::<T, RetryErr<E>>(RetryErr::RetryFailed(e)) && post == mid && n == 1
            } else {
                n >= 1 && retry_mut_trace(mid, post, (attempts - 1) as nat, r, (n - 1) as nat)
            }
        },
    }
}

/// The whole behavior of one retry call on a mutating-capture operation:
/// from operation state `pre` with budget `attempts`, the call may end in
/// state `post` with outcome `r` after exactly `n` invocations. Each
/// invocation obeys the operation's own transition relation; the outcome is
/// the first success, or `RetryFailed` with the error of the final attempt,
/// or `NoAttempts` (with no invocation at all) on a budget of zero.
pub open spec fn retry_mut_trace<T, E, O: Operation<T, E>>(
    pre: O,
    post: O,
    attempts: nat,
    r: Result<T, RetryErr<E>>,
    n: nat,
) -> bool
    decreases attempts, 1nat,
{
    if attempts == 0 {
        r == Err::<T, RetryErr<E>>(RetryErr::NoAttempts) && post == pre && n == 0
    } else {
        exists|mid: O, res: Result<T, E>|
            #[trigger] O::step(pre, mid, res) && retry_mut_trace_from(mid, res, post, attempts, r, n)
    }
}

/// As `retry_mut_trace_from`, for a shared-call operation, whose state does
/// not change between invocations.
pub open spec fn retry_trace_from<T, E, O: SharedOperation<T, E>>(
    op: O,
    res: Result<T, E>,
    attempts: nat,
    r: Result<T, RetryErr<E>>,
    n: nat,
) -> bool
    decreases attempts, 0nat,
{
    match res {
        Ok(v) => r == Ok::<T, RetryErr<E>>(v) && n == 1,
        Err(e) => {
            if attempts <= 1 {
                r == Err::<T, RetryErr<E>>(RetryErr::RetryFailed(e)) && n == 1
            } else {
                n >= 1 && retry_trace(op, (attempts - 1) as nat, r, (n - 1) as nat)
            }
        },
    }
}

/// The whole behavior of one retry call on a shared-call operation: with
/// budget `attempts`, the call may end with outcome `r` after exactly `n`
/// invocations, each of which obeys the operation's result relation.
pub open spec fn retry_trace<T, E, O: SharedOperation<T, E>>(
    op: O,
    attempts: nat,
    r: Result<T, RetryErr<E>>,
    n: nat,
) -> bool
    decreases attempts, 1nat,
{
    if attempts == 0 {
        r == Err::<T, RetryErr<E>>(RetryErr::NoAttempts) && n == 0
    } else {
        exists|res: Result<T, E>|
            #[trigger] op.step(res) && retry_trace_from(op, res, attempts, r, n)
    }
}

/// Invokes `op` until it succeeds, at most `attempts` times in all, sleeping
/// the backoff delay through `sleeper` between consecutive invocations: the
/// base unit first, then the unit times a multiplier advanced by a circular
/// left shift per failure. Shared-call variant: `op` is invoked through
/// shared access only.
///
/// The outcome and some invocation count `n` form a trace of the operation's
/// result relation, and the sleeper performs exactly the first `n - 1`
/// backoff delays: no sleep on a budget of zero, none after the final
/// attempt, none after a success.
pub fn retry_fn<T, E, O: SharedOperation<T, E>, S: Sleeper>(
    attempts: u8,
    unit_nanos: u64,
    op: &O,
    sleeper: &mut S,
) -> (r: Result<T, RetryErr<E>>)
    ensures
        exists|n: nat|
            #[trigger] retry_trace(*op, attempts as nat, r, n)
                && final(sleeper).slept() == old(sleeper).slept()
                + backoff_delays(unit_nanos, sleep_count(n)),
{
    let ghost slept0 = sleeper.slept();

    if attempts == 0 {
        proof {
            assert(slept0 + backoff_delays(unit_nanos, sleep_count(0)) =~= slept0);
            assert(retry_trace::<T, E, O>(*op, 0, Err(RetryErr::NoAttempts), 0));
        }
        return Err(RetryErr::NoAttempts);
    }

    let mut power: u32 = 1;
    let mut i: u8 = 0;

    proof {
        assert(slept0 + backoff_delays(unit_nanos, 0) =~= slept0);
    }

    loop
        invariant
            0 < attempts,
            i < attempts,
            power == power_at(i as nat),
            sleeper.slept() == slept0 + backoff_delays(unit_nanos, i as nat),
            old(sleeper).slept() == slept0,
            forall|r2: Result<T, RetryErr<E>>, n2: nat|
                #[trigger] retry_trace(*op, (attempts - i) as nat, r2, n2)
                    ==> retry_trace(*op, attempts as nat, r2, n2 + i as nat),
        decreases attempts - i,
    {
        let ghost i0 = i;
        let res = op.call();
        let ghost gres = res;
        match res {
            Ok(v) => {
                proof {
                    let ghost rr = Ok::<T, RetryErr<E>>(v);
                    assert(retry_trace_from::<T, E, O>(*op, gres, (attempts - i0) as nat, rr, 1));
                    assert(retry_trace::<T, E, O>(*op, (attempts - i0) as nat, rr, 1));
                    assert(retry_trace::<T, E, O>(*op, attempts as nat, rr, 1 + i0 as nat));
                    assert(sleep_count(1 + i0 as nat) == i0 as nat);
                }
                return Ok(v);
            },
            Err(e) => {
                let next_i: u8 = i + 1;
                if next_i == attempts {
                    proof {
                        let ghost rr = Err::<T, RetryErr<E>>(RetryErr::RetryFailed(e));
                        assert(retry_trace_from::<T, E, O>(*op, gres, (attempts - i0) as nat, rr, 1));
                        assert(retry_trace::<T, E, O>(*op, (attempts - i0) as nat, rr, 1));
                        assert(retry_trace::<T, E, O>(*op, attempts as nat, rr, 1 + i0 as nat));
                        assert(sleep_count(1 + i0 as nat) == i0 as nat);
                    }
                    return Err(RetryErr::RetryFailed(e));
                }
                sleeper.sleep(delay_nanos(unit_nanos, power));
                power = rotate_power(power);
                i = next_i;
                proof {
                    assert(backoff_delays(unit_nanos, i as nat) =~= backoff_delays(
                        unit_nanos,
                        i0 as nat,
                    ).push(delay_of(unit_nanos, power_at(i0 as nat))));
                    assert(slept0 + backoff_delays(unit_nanos, i as nat) =~= (slept0
                        + backoff_delays(unit_nanos, i0 as nat)).push(
                        delay_of(unit_nanos, power_at(i0 as nat)),
                    ));
                    assert(power_at(i as nat) == rotated(power_at(i0 as nat)));
                    assert forall|r2: Result<T, RetryErr<E>>, n2: nat|
                        #[trigger] retry_trace(*op, (attempts - i) as nat, r2, n2) implies retry_trace(
                        *op,
                        attempts as nat,
                        r2,
                        n2 + i as nat,
                    ) by {
                        assert(retry_trace_from::<T, E, O>(
                            *op,
                            gres,
                            (attempts - i0) as nat,
                            r2,
                            n2 + 1,
                        ));
                        assert(retry_trace::<T, E, O>(*op, (attempts - i0) as nat, r2, n2 + 1));
                        assert(retry_trace::<T, E, O>(*op, attempts as nat, r2, n2 + 1 + i0 as nat));
                    }
                }
            },
        }
    }
}

/// Invokes `op` until it succeeds, at most `attempts` times in all, sleeping
/// the backoff delay through `sleeper` between consecutive invocations.
/// Mutating-capture variant: the executor holds exclusive access to `op` for
/// the whole call, and the operation may mutate its state between attempts.
///
/// The outcome, the final operation state, and some invocation count `n`
/// form a trace of the operation's own transition relation, and the sleeper
/// performs exactly the first `n - 1` backoff delays: no sleep on a budget
/// of zero, none after the final attempt, none after a success.
pub fn retry_fn_mut<T, E, O: Operation<T, E>, S: Sleeper>(
    attempts: u8,
    unit_nanos: u64,
    op: &mut O,
    sleeper: &mut S,
) -> (r: Result<T, RetryErr<E>>)
    ensures
        exists|n: nat|
            #[trigger] retry_mut_trace(*old(op), *final(op), attempts as nat, r, n)
                && final(sleeper).slept() == old(sleeper).slept()
                + backoff_delays(unit_nanos, sleep_count(n)),
{
    let ghost op0 = *op;
    let ghost slept0 = sleeper.slept();

    if attempts == 0 {
        proof {
            assert(slept0 + backoff_delays(unit_nanos, sleep_count(0)) =~= slept0);
            assert(retry_mut_trace::<T, E, O>(op0, *op, 0, Err(RetryErr::NoAttempts), 0));
        }
        return Err(RetryErr::NoAttempts);
    }

    let mut power: u32 = 1;
    let mut i: u8 = 0;

    proof {
        assert(slept0 + backoff_delays(unit_nanos, 0) =~= slept0);
    }

    loop
        invariant
            0 < attempts,
            i < attempts,
            power == power_at(i as nat),
            sleeper.slept() == slept0 + backoff_delays(unit_nanos, i as nat),
            old(sleeper).slept() == slept0,
            *old(op) == op0,
            forall|post: O, r2: Result<T, RetryErr<E>>, n2: nat|
                #[trigger] retry_mut_trace(*op, post, (attempts - i) as nat, r2, n2)
                    ==> retry_mut_trace(op0, post, attempts as nat, r2, n2 + i as nat),
        decreases attempts - i,
    {
        let ghost pre = *op;
        let ghost i0 = i;
        let res = op.call();
        let ghost gres = res;
        match res {
            Ok(v) => {
                proof {
                    let ghost rr = Ok::<T, RetryErr<E>>(v);
                    assert(retry_mut_trace_from::<T, E, O>(
                        *op,
                        gres,
                        *op,
                        (attempts - i0) as nat,
                        rr,
                        1,
                    ));
                    assert(retry_mut_trace::<T, E, O>(pre, *op, (attempts - i0) as nat, rr, 1));
                    assert(retry_mut_trace::<T, E, O>(op0, *op, attempts as nat, rr, 1 + i0 as nat));
                    assert(sleep_count(1 + i0 as nat) == i0 as nat);
                }
                return Ok(v);
            },
            Err(e) => {
                let next_i: u8 = i + 1;
                if next_i == attempts {
                    proof {
                        let ghost rr = Err::<T, RetryErr<E>>(RetryErr::RetryFailed(e));
                        assert(retry_mut_trace_from::<T, E, O>(
                            *op,
                            gres,
                            *op,
                            (attempts - i0) as nat,
                            rr,
                            1,
                        ));
                        assert(retry_mut_trace::<T, E, O>(pre, *op, (attempts - i0) as nat, rr, 1));
                        assert(retry_mut_trace::<T, E, O>(
                            op0,
                            *op,
                            attempts as nat,
                            rr,
                            1 + i0 as nat,
                        ));
                        assert(sleep_count(1 + i0 as nat) == i0 as nat);
                    }
                    return Err(RetryErr::RetryFailed(e));
                }
                sleeper.sleep(delay_nanos(unit_nanos, power));
                power = rotate_power(power);
                i = next_i;
                proof {
                    assert(backoff_delays(unit_nanos, i as nat) =~= backoff_delays(
                        unit_nanos,
                        i0 as nat,
                    ).push(delay_of(unit_nanos, power_at(i0 as nat))));
                    assert(slept0 + backoff_delays(unit_nanos, i as nat) =~= (slept0
                        + backoff_delays(unit_nanos, i0 as nat)).push(
                        delay_of(unit_nanos, power_at(i0 as nat)),
                    ));
                    assert(power_at(i as nat) == rotated(power_at(i0 as nat)));
                    assert forall|post: O, r2: Result<T, RetryErr<E>>, n2: nat|
                        #[trigger] retry_mut_trace(*op, post, (attempts - i) as nat, r2, n2) implies
                        retry_mut_trace(op0, post, attempts as nat, r2, n2 + i as nat) by {
                        assert(retry_mut_trace_from::<T, E, O>(
                            *op,
                            gres,
                            post,
                            (attempts - i0) as nat,
                            r2,
                            n2 + 1,
                        ));
                        assert(retry_mut_trace::<T, E, O>(
                            pre,
                            post,
                            (attempts - i0) as nat,
                            r2,
                            n2 + 1,
                        ));
                        assert(retry_mut_trace::<T, E, O>(
                            op0,
                            post,
                            attempts as nat,
                            r2,
                            n2 + 1 + i0 as nat,
                        ));
                    }
                }
            },
        }
    }
}

} // verus!
