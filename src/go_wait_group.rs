//! An explicit-count wait group: callers declare units with `try_add` and complete each one
//! with `try_done`.
use crate::counter::add_effect;
use crate::wait_group_error::{Result, WaitGroupError};
use crate::wait_group_impl::WaitGroupImpl;
use std::sync::Arc;
use vstd::prelude::*;

verus! {

/// A wait group whose count only the caller changes.
#[derive(Clone)]
pub struct GoWaitGroup {
    inner: Arc<WaitGroupImpl>,
}

impl GoWaitGroup {
    /// A group with no outstanding unit.
    pub fn new() -> (r: Self) {
        GoWaitGroup { inner: Arc::new(WaitGroupImpl::new()) }
    }

    /// Blocks until the count is zero; fails with `Unexpected` only on a poisoned lock.
    pub fn wait(&self) -> (r: Result<()>)
        ensures
            r matches Err(e) ==> e is Unexpected,
    {
        self.inner.wait()
    }

    /// Adds `delta` to the count; refused, with nothing stored, when the count would go below
    /// zero or grow past `usize`.
    #[must_use]
    pub fn try_add(&self, delta: isize) -> (r: Result<()>)
        ensures
            exists|seen: usize| #[trigger] add_effect(seen as int, delta as int, r),
    {
        self.inner.try_add(delta)
    }

    /// Completes one unit; on a quiescent group this fails with `NegativeCounter(-1)`.
    #[must_use]
    pub fn try_done(&self) -> (r: Result<()>)
        ensures
            exists|seen: usize| #[trigger] add_effect(seen as int, -1, r),
            r matches Err(e) ==> e == WaitGroupError::NegativeCounter(-1isize),
    {
        self.inner.try_done()
    }

    /// A snapshot of the count, which may be stale as soon as it is returned.
    pub fn counter(&self) -> usize {
        self.inner.counter()
    }
}

} // verus!
