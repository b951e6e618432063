//! The plain wait group: every clone of a handle is one outstanding unit, given back by
//! `release`.
use crate::shared::share;
use crate::wait_group_error::{decimal, Result, WaitGroupError};
use crate::wait_group_impl::WaitGroupImpl;
use std::sync::Arc;
use vstd::prelude::*;

verus! {

/// A handle whose clones count as outstanding units, each given back by its `release`. Waiting on a handle while a clone of
/// it is still held blocks until that clone is released: waiting on a group from a thread
/// that holds one of its own clones never returns.
pub struct WaitGroup {
    inner: Arc<WaitGroupImpl>,
    counted: bool,
}

impl WaitGroup {
    /// The engine that this handle shares.
    pub closed spec fn group(self) -> WaitGroupImpl {
        *self.inner
    }

    /// Whether this handle holds a unit of its own: clones do, the handle that made the
    /// group does not.
    pub closed spec fn holds_unit(self) -> bool {
        self.counted
    }

    /// A group with no outstanding unit.
    pub fn new() -> (r: WaitGroup)
        ensures
            !r.holds_unit(),
    {
        WaitGroup { inner: Arc::new(WaitGroupImpl::new()), counted: false }
    }

    /// Blocks until every clone has been released; fails with `Unexpected` only on a
    /// poisoned lock.
    pub fn wait(&self) -> (r: Result<()>)
        ensures
            r matches Err(e) ==> e is Unexpected,
    {
        self.inner.wait()
    }

    /// A snapshot of the count, which may be stale as soon as it is returned.
    pub fn counter(&self) -> usize {
        self.inner.counter()
    }

    /// The group as text, with a snapshot of its count.
    pub fn describe(&self) -> (r: String)
        ensures
            exists|seen: usize| r@ == "WaitGroup { count "@ + decimal(seen as int) + " }"@,
    {
        self.inner.describe()
    }

    /// Adds one unit; fails only when the count would grow past `usize`.
    fn increment_counter(&self) -> (r: Result<()>)
        ensures
            r matches Err(e) ==> e is Unexpected,
    {
        self.inner.increment()
    }

    fn done(&self) -> (r: Result<()>)
        ensures
            r matches Err(e) ==> e == WaitGroupError::NegativeCounter(-1isize),
    {
        self.inner.try_done()
    }

    /// Gives this handle's unit back, if it holds one.
    pub fn release(self) -> (r: Result<()>)
        ensures
            !self.holds_unit() ==> r is Ok,
            r matches Err(e) ==> e == WaitGroupError::NegativeCounter(-1isize),
    {
        if self.counted {
            self.done()
        } else {
            Ok(())
        }
    }
}

impl Clone for WaitGroup {
    /// Another handle of the same group, which adds one unit of its own.
    fn clone(&self) -> (r: Self)
        ensures
            r.group() == self.group(),
    {
        let wg = WaitGroup { inner: share(&self.inner), counted: false };
        let counted = wg.increment_counter().is_ok();
        WaitGroup { counted, ..wg }
    }
}

} // verus!
