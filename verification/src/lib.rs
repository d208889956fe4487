//! A retry executor with exponential backoff.
//!
//! A fallible operation is invoked until it succeeds or an attempt budget is
//! exhausted, sleeping an exponentially growing delay between attempts. The
//! backoff multiplier evolves by a circular left shift over a 32-bit unsigned
//! value, so after 32 failed attempts it cycles back to 1 instead of
//! collapsing to zero.

pub mod backoff;
pub mod laws;
pub mod operation;
pub mod operations;
pub mod random;
pub mod report;
pub mod retry;
pub mod sleep;
