//! The capability contracts of a retryable operation.

use vstd::prelude::*;

verus! {

/// A fallible operation that requires exclusive access to its captured state
/// across each invocation, and may mutate that state between attempts.
///
/// `step` is the transition relation of one invocation: from a given state,
/// which successor states and which results a call may produce. It is the
/// whole behavioral contract of `call`; a nondeterministic operation states
/// in `step` only what holds of every outcome.
pub trait Operation<T, E>: Sized {
    /// One invocation may take the state `pre` to the state `post` while
    /// returning `r`. An implementation that leaves the relation at its
    /// default promises nothing of its calls.
    open spec fn step(pre: Self, post: Self, r: Result<T, E>) -> bool {
        true
    }

    /// Invokes the operation once.
    fn call(&mut self) -> (r: Result<T, E>)
        ensures
            Self::step(*old(self), *final(self), r),
    ;
}

/// A fallible operation that may be invoked repeatedly through shared access
/// to its captured state: no call changes what a later call may return.
pub trait SharedOperation<T, E>: Sized {
    /// Which results one invocation may return. An implementation that
    /// leaves the relation at its default promises nothing of its calls.
    open spec fn step(&self, r: Result<T, E>) -> bool {
        true
    }

    /// Invokes the operation once.
    fn call(&self) -> (r: Result<T, E>)
        ensures
            self.step(r),
    ;
}

} // verus!
