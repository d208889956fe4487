//! Suspension between attempts: the executor sleeps through a `Sleeper`, and
//! every sleep it performs shows up in the sleeper's log.

use vstd::prelude::*;

verus! {

/// Performs the waits between attempts. The log says which sleeps have been
/// performed so far, in order, in nanoseconds; a sleeper that really blocks
/// the thread lives with the caller, outside this library.
pub trait Sleeper {
    /// The durations slept so far, in order, in nanoseconds. A sleeper that
    /// waits without keeping records may leave the log at its default.
    open spec fn slept(&self) -> Seq<u128> {
        Seq::empty()
    }

    /// Suspends the caller for `nanos` nanoseconds.
    fn sleep(&mut self, nanos: u128)
        ensures
            final(self).slept() == old(self).slept().push(nanos),
    ;
}

/// A sleeper that does not wait at all: it only records the requested
/// delays, so a caller can observe when and how long the executor slept.
pub struct RecordingSleeper {
    /// The requested delays, in request order, in nanoseconds.
    pub log: Vec<u128>,
}

impl RecordingSleeper {
    /// Makes a recorder with an empty log.
    pub fn new() -> (r: RecordingSleeper)
        ensures
            r.slept() == Seq::<u128>::empty(),
    {
        RecordingSleeper { log: Vec::new() }
    }
}

impl Sleeper for RecordingSleeper {
    open spec fn slept(&self) -> Seq<u128> {
        self.log@
    }

    fn sleep(&mut self, nanos: u128) {
        self.log.push(nanos);
    }
}

} // verus!
