//! Operations built on the process random number generator: fallible draws
//! to exercise the executor with.

use vstd::prelude::*;

use crate::operation::SharedOperation;

verus! {

/// Relies on rand::random: a value drawn from the thread-local generator.
/// Nothing is promised of the result.
pub assume_specification<T>[ rand::random::<T> ]() -> (r: T)
    where
        rand::distributions::Standard: rand::distributions::Distribution<T>,
;

/// Draws a random number and accepts it when the draw masked with zero is
/// zero, which holds of every number: the call always succeeds, and carries
/// the draw.
pub fn even_bit() -> (r: Result<u16, u16>)
    ensures
        r is Ok,
{
    let num = rand::random::<u16>();
    proof {
        assert(num & 0 == 0) by (bit_vector);
    }
    if (num & 0) == 0 {
        return Ok(num);
    }
    Err(num)
}

/// Draws a random number until it is even; the draw is accepted through
/// `even_bit`, whose mask accepts every number, so the call always succeeds.
pub fn rand_even_num() -> (r: Result<u16, u16>)
    ensures
        r is Ok,
{
    even_bit()
}

/// Draws a random number and accepts it when its lowest bit is set: `Ok`
/// carries an odd number, `Err` an even one.
pub fn odd_bit() -> (r: Result<u16, u16>)
    ensures
        r matches Ok(num) ==> num & 1 == 1,
        r matches Err(num) ==> num & 1 == 0,
{
    let num = rand::random::<u16>();
    proof {
        assert(num & 1 == 1 || num & 1 == 0) by (bit_vector);
    }
    if (num & 1) != 0 {
        return Ok(num);
    }
    Err(num)
}

/// Draws a random number until it is odd: `Ok` carries an odd number, `Err`
/// an even one.
pub fn rand_odd_num() -> (r: Result<u16, u16>)
    ensures
        r matches Ok(num) ==> num & 1 == 1,
        r matches Err(num) ==> num & 1 == 0,
{
    odd_bit()
}

/// The always-accepting random draw as a shared-call operation.
pub struct EvenBitOp;

impl SharedOperation<u16, u16> for EvenBitOp {
    open spec fn step(&self, r: Result<u16, u16>) -> bool {
        r is Ok
    }

    fn call(&self) -> (r: Result<u16, u16>) {
        rand_even_num()
    }
}

/// The odd-number random draw as a shared-call operation: success carries an
/// odd number, failure an even one.
pub struct OddBitOp;

impl SharedOperation<u16, u16> for OddBitOp {
    open spec fn step(&self, r: Result<u16, u16>) -> bool {
        match r {
            Ok(num) => num & 1 == 1,
            Err(num) => num & 1 == 0,
        }
    }

    fn call(&self) -> (r: Result<u16, u16>) {
        rand_odd_num()
    }
}

} // verus!
