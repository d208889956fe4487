//! Laws of the retry executor: what the trace contracts of `retry_fn` and
//! `retry_fn_mut` force for whole classes of operations.

use vstd::prelude::*;

use crate::backoff::backoff_delays;
use crate::operation::{Operation, SharedOperation};
use crate::retry::{
    retry_mut_trace, retry_mut_trace_from, retry_trace, retry_trace_from, sleep_count, RetryErr,
};

verus! {

/// Law: with an attempt budget of zero, the outcome is `NoAttempts`, the
/// operation is never invoked, and no sleep occurs, whatever the base unit
/// and whatever the operation.
pub proof fn lemma_retry_zero_budget<T, E, O: SharedOperation<T, E>>(
    op: O,
    unit_nanos: u64,
    r: Result<T, RetryErr<E>>,
    n: nat,
    slept0: Seq<u128>,
    slept1: Seq<u128>,
)
    requires
        retry_trace(op, 0, r, n),
        slept1 == slept0 + backoff_delays(unit_nanos, sleep_count(n)),
    ensures
        r == Err::<T, RetryErr<E>>(RetryErr::NoAttempts),
        n == 0,
        slept1 == slept0,
{
    assert(slept0 + backoff_delays(unit_nanos, 0) =~= slept0);
}

/// Law: with an attempt budget of zero, the mutating-capture variant also
/// yields `NoAttempts`, leaves the operation untouched, never invokes it,
/// and performs no sleep.
pub proof fn lemma_retry_mut_zero_budget<T, E, O: Operation<T, E>>(
    pre: O,
    post: O,
    unit_nanos: u64,
    r: Result<T, RetryErr<E>>,
    n: nat,
    slept0: Seq<u128>,
    slept1: Seq<u128>,
)
    requires
        retry_mut_trace(pre, post, 0, r, n),
        slept1 == slept0 + backoff_delays(unit_nanos, sleep_count(n)),
    ensures
        r == Err::<T, RetryErr<E>>(RetryErr::NoAttempts),
        n == 0,
        post == pre,
        slept1 == slept0,
{
    assert(slept0 + backoff_delays(unit_nanos, 0) =~= slept0);
}

/// The heart of `lemma_retry_always_ok`: on a trace of an operation that
/// never fails, the first invocation already ends the call.
proof fn lemma_retry_always_ok_trace<T, E, O: SharedOperation<T, E>>(
    op: O,
    attempts: nat,
    r: Result<T, RetryErr<E>>,
    n: nat,
)
    requires
        attempts >= 1,
        forall|res: Result<T, E>| #[trigger] op.step(res) ==> res is Ok,
        retry_trace(op, attempts, r, n),
    ensures
        r is Ok,
        op.step(Ok(r->Ok_0)),
        n == 1,
{
    let res = choose|res: Result<T, E>|
        #[trigger] op.step(res) && retry_trace_from(op, res, attempts, r, n);
    assert(res is Ok);
}

/// Law: with at least one attempt allowed, an operation that always succeeds
/// is invoked exactly once, the outcome is its success, and no sleep occurs.
pub proof fn lemma_retry_always_ok<T, E, O: SharedOperation<T, E>>(
    op: O,
    attempts: nat,
    unit_nanos: u64,
    r: Result<T, RetryErr<E>>,
    n: nat,
    slept0: Seq<u128>,
    slept1: Seq<u128>,
)
    requires
        attempts >= 1,
        forall|res: Result<T, E>| #[trigger] op.step(res) ==> res is Ok,
        retry_trace(op, attempts, r, n),
        slept1 == slept0 + backoff_delays(unit_nanos, sleep_count(n)),
    ensures
        r is Ok,
        op.step(Ok(r->Ok_0)),
        n == 1,
        slept1 == slept0,
{
    lemma_retry_always_ok_trace(op, attempts, r, n);
    assert(slept0 + backoff_delays(unit_nanos, 0) =~= slept0);
}

/// Law (mutating-capture variant): an operation that always succeeds is
/// invoked exactly once and no sleep occurs.
pub proof fn lemma_retry_mut_always_ok<T, E, O: Operation<T, E>>(
    pre: O,
    post: O,
    attempts: nat,
    unit_nanos: u64,
    r: Result<T, RetryErr<E>>,
    n: nat,
    slept0: Seq<u128>,
    slept1: Seq<u128>,
)
    requires
        attempts >= 1,
        forall|a: O, b: O, res: Result<T, E>| #[trigger] O::step(a, b, res) ==> res is Ok,
        retry_mut_trace(pre, post, attempts, r, n),
        slept1 == slept0 + backoff_delays(unit_nanos, sleep_count(n)),
    ensures
        r is Ok,
        O::step(pre, post, Ok(r->Ok_0)),
        n == 1,
        slept1 == slept0,
{
    let (mid, res) = choose|mid: O, res: Result<T, E>|
        #[trigger] O::step(pre, mid, res) && retry_mut_trace_from(mid, res, post, attempts, r, n);
    assert(res is Ok);
    assert(slept0 + backoff_delays(unit_nanos, 0) =~= slept0);
}

/// The induction behind `lemma_retry_always_err`: on a trace of an operation
/// that never succeeds, the budget is spent in full and the outcome is
/// `RetryFailed`.
proof fn lemma_retry_always_err_trace<T, E, O: SharedOperation<T, E>>(
    op: O,
    attempts: nat,
    r: Result<T, RetryErr<E>>,
    n: nat,
)
    requires
        attempts >= 1,
        forall|res: Result<T, E>| #[trigger] op.step(res) ==> res is Err,
        retry_trace(op, attempts, r, n),
    ensures
        r is Err,
        r->Err_0 is RetryFailed,
        op.step(Err(r->Err_0->RetryFailed_0)),
        n == attempts,
    decreases attempts,
{
    let res = choose|res: Result<T, E>|
        #[trigger] op.step(res) && retry_trace_from(op, res, attempts, r, n);
    assert(res is Err);
    if attempts > 1 {
        lemma_retry_always_err_trace(op, (attempts - 1) as nat, r, (n - 1) as nat);
    }
}

/// Law: with an attempt budget of `attempts >= 1`, an operation that always
/// fails is invoked exactly `attempts` times, the outcome is `RetryFailed`
/// carrying an error of the final invocation, and the sleeper performs
/// exactly `attempts - 1` sleeps: the backoff delays, between attempts and
/// never after the last.
pub proof fn lemma_retry_always_err<T, E, O: SharedOperation<T, E>>(
    op: O,
    attempts: nat,
    unit_nanos: u64,
    r: Result<T, RetryErr<E>>,
    n: nat,
    slept0: Seq<u128>,
    slept1: Seq<u128>,
)
    requires
        attempts >= 1,
        forall|res: Result<T, E>| #[trigger] op.step(res) ==> res is Err,
        retry_trace(op, attempts, r, n),
        slept1 == slept0 + backoff_delays(unit_nanos, sleep_count(n)),
    ensures
        r is Err,
        r->Err_0 is RetryFailed,
        op.step(Err(r->Err_0->RetryFailed_0)),
        n == attempts,
        slept1 == slept0 + backoff_delays(unit_nanos, (attempts - 1) as nat),
{
    lemma_retry_always_err_trace(op, attempts, r, n);
}

/// The induction behind `lemma_retry_mut_always_err`.
proof fn lemma_retry_mut_always_err_trace<T, E, O: Operation<T, E>>(
    pre: O,
    post: O,
    attempts: nat,
    r: Result<T, RetryErr<E>>,
    n: nat,
)
    requires
        attempts >= 1,
        forall|a: O, b: O, res: Result<T, E>| #[trigger] O::step(a, b, res) ==> res is Err,
        retry_mut_trace(pre, post, attempts, r, n),
    ensures
        r is Err,
        r->Err_0 is RetryFailed,
        n == attempts,
    decreases attempts,
{
    let (mid, res) = choose|mid: O, res: Result<T, E>|
        #[trigger] O::step(pre, mid, res) && retry_mut_trace_from(mid, res, post, attempts, r, n);
    assert(res is Err);
    if attempts > 1 {
        lemma_retry_mut_always_err_trace(mid, post, (attempts - 1) as nat, r, (n - 1) as nat);
    }
}

/// Law (mutating-capture variant): an operation that always fails is invoked
/// exactly `attempts` times, the outcome is `RetryFailed`, and exactly
/// `attempts - 1` backoff sleeps occur.
pub proof fn lemma_retry_mut_always_err<T, E, O: Operation<T, E>>(
    pre: O,
    post: O,
    attempts: nat,
    unit_nanos: u64,
    r: Result<T, RetryErr<E>>,
    n: nat,
    slept0: Seq<u128>,
    slept1: Seq<u128>,
)
    requires
        attempts >= 1,
        forall|a: O, b: O, res: Result<T, E>| #[trigger] O::step(a, b, res) ==> res is Err,
        retry_mut_trace(pre, post, attempts, r, n),
        slept1 == slept0 + backoff_delays(unit_nanos, sleep_count(n)),
    ensures
        r is Err,
        r->Err_0 is RetryFailed,
        n == attempts,
        slept1 == slept0 + backoff_delays(unit_nanos, (attempts - 1) as nat),
{
    lemma_retry_mut_always_err_trace(pre, post, attempts, r, n);
}

/// The induction behind `lemma_retry_mut_eventual_success`.
proof fn lemma_retry_mut_eventual_success_trace<T, E, O: Operation<T, E>>(
    pre: O,
    post: O,
    attempts: nat,
    r: Result<T, RetryErr<E>>,
    n: nat,
    fails_left: spec_fn(O) -> nat,
)
    requires
        fails_left(pre) < attempts,
        forall|a: O, b: O, res: Result<T, E>| #[trigger] O::step(a, b, res) ==> if fails_left(a)
            > 0 {
            res is Err && fails_left(b) == fails_left(a) - 1
        } else {
            res is Ok
        },
        retry_mut_trace(pre, post, attempts, r, n),
    ensures
        r is Ok,
        n == fails_left(pre) + 1,
    decreases attempts,
{
    let (mid, res) = choose|mid: O, res: Result<T, E>|
        #[trigger] O::step(pre, mid, res) && retry_mut_trace_from(mid, res, post, attempts, r, n);
    if fails_left(pre) > 0 {
        assert(res is Err);
        lemma_retry_mut_eventual_success_trace(
            mid,
            post,
            (attempts - 1) as nat,
            r,
            (n - 1) as nat,
            fails_left,
        );
    } else {
        assert(res is Ok);
    }
}

/// Law: an operation that fails exactly `k` times and then succeeds, with
/// `k` below the attempt budget, is invoked exactly `k + 1` times, the
/// outcome is its success, and exactly `k` backoff sleeps occur. The failure
/// count is given as a measure `fails_left` on the operation's state that
/// each failed invocation decrements and whose zero forces success.
pub proof fn lemma_retry_mut_eventual_success<T, E, O: Operation<T, E>>(
    pre: O,
    post: O,
    attempts: nat,
    unit_nanos: u64,
    r: Result<T, RetryErr<E>>,
    n: nat,
    fails_left: spec_fn(O) -> nat,
    slept0: Seq<u128>,
    slept1: Seq<u128>,
)
    requires
        fails_left(pre) < attempts,
        forall|a: O, b: O, res: Result<T, E>| #[trigger] O::step(a, b, res) ==> if fails_left(a)
            > 0 {
            res is Err && fails_left(b) == fails_left(a) - 1
        } else {
            res is Ok
        },
        retry_mut_trace(pre, post, attempts, r, n),
        slept1 == slept0 + backoff_delays(unit_nanos, sleep_count(n)),
    ensures
        r is Ok,
        n == fails_left(pre) + 1,
        slept1 == slept0 + backoff_delays(unit_nanos, fails_left(pre)),
{
    lemma_retry_mut_eventual_success_trace(pre, post, attempts, r, n, fails_left);
}

/// Law: retrying is idempotent in the outcome's variant. Two retry calls
/// with the same always-succeeding shared-call operation and the same budget
/// both succeed, with the same invocation count, though the carried values
/// may differ when the operation is nondeterministic.
pub proof fn lemma_retry_idempotent<T, E, O: SharedOperation<T, E>>(
    op: O,
    attempts: nat,
    r1: Result<T, RetryErr<E>>,
    n1: nat,
    r2: Result<T, RetryErr<E>>,
    n2: nat,
)
    requires
        attempts >= 1,
        forall|res: Result<T, E>| #[trigger] op.step(res) ==> res is Ok,
        retry_trace(op, attempts, r1, n1),
        retry_trace(op, attempts, r2, n2),
    ensures
        r1 is Ok,
        r2 is Ok,
        n1 == n2,
{
    lemma_retry_always_ok_trace(op, attempts, r1, n1);
    lemma_retry_always_ok_trace(op, attempts, r2, n2);
}

} // verus!
