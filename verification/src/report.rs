//! The outcome reporter: a fixed human-readable phrase for each kind of
//! retry outcome.

use vstd::prelude::*;

use crate::retry::RetryErr;

verus! {

/// Describes a retry outcome: one fixed phrase per variant, distinguishing
/// success, a zero budget, and an exhausted budget. Rendering the carried
/// value or error stays with the caller.
pub fn describe<T, E>(res: &Result<T, RetryErr<E>>) -> (r: &'static str)
    ensures
        res is Ok ==> r@ == "retry successful"@,
        res matches Err(RetryErr::NoAttempts) ==> r@ == "retry errored: no attempts were allowed"@,
        res matches Err(RetryErr::RetryFailed(_)) ==> r@ == "retry errored: all attempts failed"@,
{
    match res {
        Ok(_) => "retry successful",
        Err(RetryErr::NoAttempts) => "retry errored: no attempts were allowed",
        Err(RetryErr::RetryFailed(_)) => "retry errored: all attempts failed",
    }
}

} // verus!
