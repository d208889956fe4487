//! Ready-made operations that drive the executor: deterministic ones whose
//! whole behavior is pinned down by their transition relations.

use vstd::prelude::*;

use crate::operation::{Operation, SharedOperation};

verus! {

/// A shared-call operation that succeeds on every invocation with a fixed
/// value.
pub struct AlwaysOk<T> {
    /// The value every call returns.
    pub value: T,
}

impl<T: Copy, E> SharedOperation<T, E> for AlwaysOk<T> {
    open spec fn step(&self, r: Result<T, E>) -> bool {
        r == Ok::<T, E>(self.value)
    }

    fn call(&self) -> (r: Result<T, E>) {
        Ok(self.value)
    }
}

/// A shared-call operation that fails on every invocation with a fixed
/// error.
pub struct AlwaysErr<E> {
    /// The error every call returns.
    pub err: E,
}

impl<T, E: Copy> SharedOperation<T, E> for AlwaysErr<E> {
    open spec fn step(&self, r: Result<T, E>) -> bool {
        r == Err::<T, E>(self.err)
    }

    fn call(&self) -> (r: Result<T, E>) {
        Err(self.err)
    }
}

/// A mutating-capture operation that fails a set number of times and then
/// succeeds: each failed call decrements `fails_left` and reports the new
/// count as its error; once the count reaches zero, every call returns
/// `value`.
pub struct EventuallyOk {
    /// How many invocations will still fail.
    pub fails_left: u32,
    /// The value returned once the failures are spent.
    pub value: u32,
}

impl Operation<u32, u32> for EventuallyOk {
    open spec fn step(pre: Self, post: Self, r: Result<u32, u32>) -> bool {
        if pre.fails_left > 0 {
            &&& r == Err::<u32, u32>((pre.fails_left - 1) as u32)
            &&& post.fails_left == pre.fails_left - 1
            &&& post.value == pre.value
        } else {
            &&& r == Ok::<u32, u32>(pre.value)
            &&& post == pre
        }
    }

    fn call(&mut self) -> (r: Result<u32, u32>) {
        if self.fails_left > 0 {
            self.fails_left = self.fails_left - 1;
            Err(self.fails_left)
        } else {
            Ok(self.value)
        }
    }
}

} // verus!
