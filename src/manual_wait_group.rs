//! A wait group with explicit counting and a gate that adds units only while it is idle.
use crate::counter::add_effect;
use crate::wait_group_error::{Result, WaitGroupError};
use crate::wait_group_impl::WaitGroupImpl;
use std::sync::Arc;
use vstd::prelude::*;

verus! {

/// A wait group counted by hand, with a gate for adding units while it is idle.
#[derive(Clone)]
pub struct ManualWaitGroup {
    inner: Arc<WaitGroupImpl>,
}

impl ManualWaitGroup {
    /// A group with no outstanding unit.
    pub fn new() -> (r: Self) {
        ManualWaitGroup { inner: Arc::new(WaitGroupImpl::new()) }
    }

    /// Blocks until the count is zero; fails with `Unexpected` only on a poisoned lock.
    pub fn wait(&self) -> (r: Result<()>)
        ensures
            r matches Err(e) ==> e is Unexpected,
    {
        self.inner.wait()
    }

    /// Adds `delta` to the count; refused, with nothing stored, when the count would go below
    /// zero or grow past `usize`.
    #[must_use]
    pub fn try_add(&self, delta: isize) -> (r: Result<()>)
        ensures
            exists|seen: usize| #[trigger] add_effect(seen as int, delta as int, r),
    {
        self.inner.try_add(delta)
    }

    /// Adds `delta` only if the count is zero at the time of the check, which is made under
    /// the same lock as the addition; returns whether it did.
    #[must_use]
    pub fn add_if_empty(&self, delta: usize) -> bool {
        self.inner.add_if_empty(delta)
    }

    /// Completes one unit; on a quiescent group this fails with `NegativeCounter(-1)`.
    #[must_use]
    pub fn try_done(&self) -> (r: Result<()>)
        ensures
            exists|seen: usize| #[trigger] add_effect(seen as int, -1, r),
            r matches Err(e) ==> e == WaitGroupError::NegativeCounter(-1isize),
    {
        self.inner.try_done()
    }

    /// A snapshot of the count, which may be stale as soon as it is returned.
    pub fn counter(&self) -> usize {
        self.inner.counter()
    }
}

} // verus!
