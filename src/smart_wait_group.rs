//! A wait group whose permissions are split: a `Doer` holds one unit of work, a `Waiter` may
//! only wait.
use crate::counter::{gated_effect, is_quiescent};
use crate::shared::{same_engine, share};
use crate::wait_group_error::{Result, WaitGroupError};
use crate::wait_group_impl::WaitGroupImpl;
use std::sync::Arc;
use vstd::prelude::*;

verus! {

/// The order in which a switch takes its two steps.
pub enum Order {
    /// Take a unit on the first group, then wait for the second to drain.
    DoerWaiter,
    /// Wait for the second group to drain, then take a unit on the first.
    WaiterDoer,
}

/// A wait group that hands out `Doer`s and `Waiter`s.
#[derive(Clone)]
pub struct SmartWaitGroup {
    inner: Arc<WaitGroupImpl>,
}

impl SmartWaitGroup {
    /// The engine that this group's handles share.
    pub closed spec fn group(self) -> WaitGroupImpl {
        *self.inner
    }

    /// A group with no outstanding unit.
    pub fn new() -> (r: Self) {
        SmartWaitGroup { inner: Arc::new(WaitGroupImpl::new()) }
    }

    /// A waiter and a doer of a new group.
    pub fn splitted() -> (r: (Waiter, Doer))
        ensures
            r.0.group() == r.1.group(),
    {
        Self::new().split()
    }

    /// A waiter and a doer of this group, which is given up.
    pub fn split(self) -> (r: (Waiter, Doer))
        ensures
            r.0.group() == self.group(),
            r.1.group() == self.group(),
    {
        (self.waiter(), self.doer())
    }

    /// A doer of this group, which adds one unit.
    pub fn doer(&self) -> (r: Doer)
        ensures
            r.group() == self.group(),
    {
        Doer::new(share(&self.inner))
    }

    /// A doer of this group if the count is zero at the moment of the request, nothing
    /// otherwise.
    pub fn unique_doer(&self) -> (r: Option<Doer>)
        ensures
            exists|seen: usize| #[trigger] gated_effect(seen as int, 1, r is Some),
            r matches Some(d) ==> d.group() == self.group() && d.holds_unit(),
    {
        Doer::unique(share(&self.inner))
    }

    /// A waiter of this group.
    pub fn waiter(&self) -> (r: Waiter)
        ensures
            r.group() == self.group(),
    {
        Waiter::new(share(&self.inner))
    }

    /// A snapshot of the count, which may be stale as soon as it is returned.
    pub fn counter(&self) -> usize {
        self.inner.counter()
    }

    /// Blocks until this group's count is zero, and returns the count seen under its lock.
    fn drain(&self) -> (r: Result<usize>)
        ensures
            r matches Ok(seen) ==> is_quiescent(seen as int),
            r matches Err(e) ==> e is Unexpected,
    {
        self.inner.wait_for_zero()
    }

    /// Takes a unit on this group, then waits until `second` has drained. Refused, before
    /// anything else is done, when `second` is this group itself; fails with `Unexpected`,
    /// giving back any unit it took, when the wait meets a poisoned lock.
    pub fn switch_do_wait(&self, second: &SmartWaitGroup) -> (r: Result<Doer>)
        ensures
            r matches Ok(d) ==> d.group() == self.group(),
            r matches Err(e) ==> e is Unexpected || (e is IdentityViolation && self.group()
                == second.group()),
    {
        if same_engine(&self.inner, &second.inner) {
            return Err(WaitGroupError::IdentityViolation);
        }
        let doer = self.doer();
        match second.drain() {
            Ok(_) => Ok(doer),
            Err(e) => {
                let _ = doer.done();
                Err(e)
            },
        }
    }

    /// Waits until `second` has drained, then takes a unit on this group. Refused, before
    /// anything else is done, when `second` is this group itself; fails with `Unexpected`,
    /// giving back any unit it took, when the wait meets a poisoned lock.
    pub fn switch_wait_do(&self, second: &SmartWaitGroup) -> (r: Result<Doer>)
        ensures
            r matches Ok(d) ==> d.group() == self.group(),
            r matches Err(e) ==> e is Unexpected || (e is IdentityViolation && self.group()
                == second.group()),
    {
        if same_engine(&self.inner, &second.inner) {
            return Err(WaitGroupError::IdentityViolation);
        }
        match second.drain() {
            Ok(_) => Ok(self.doer()),
            Err(e) => Err(e),
        }
    }

    /// `switch_do_wait` or `switch_wait_do`, as `order` says.
    pub fn switch(&self, second: &SmartWaitGroup, order: Order) -> (r: Result<Doer>)
        ensures
            r matches Ok(d) ==> d.group() == self.group(),
            r matches Err(e) ==> e is Unexpected || (e is IdentityViolation && self.group()
                == second.group()),
    {
        if same_engine(&self.inner, &second.inner) {
            return Err(WaitGroupError::IdentityViolation);
        }
        match order {
            Order::DoerWaiter => self.switch_do_wait(second),
            Order::WaiterDoer => self.switch_wait_do(second),
        }
    }

    /// Takes a unit on this group only if its count is zero, and then waits until `second`
    /// has drained. Refused, before anything else is done, when `second` is this group itself;
    /// fails with `Unexpected`, giving back the unit it took, when the wait meets a poisoned
    /// lock.
    pub fn switch_unique(&self, second: &SmartWaitGroup) -> (r: Result<Option<Doer>>)
        ensures
            r matches Ok(Some(d)) ==> d.group() == self.group() && d.holds_unit(),
            r matches Err(e) ==> e is Unexpected || (e is IdentityViolation && self.group()
                == second.group()),
    {
        if same_engine(&self.inner, &second.inner) {
            return Err(WaitGroupError::IdentityViolation);
        }
        match self.unique_doer() {
            Some(doer) => match second.drain() {
                Ok(_) => Ok(Some(doer)),
                Err(e) => {
                    let _ = doer.done();
                    Err(e)
                },
            },
            None => Ok(None),
        }
    }
}

/// Holds one outstanding unit of its wait group until `done` gives it back.
#[must_use]
pub struct Doer {
    wait_group: Arc<WaitGroupImpl>,
    counted: bool,
}

impl Doer {
    /// The engine that this doer holds a unit of.
    pub closed spec fn group(self) -> WaitGroupImpl {
        *self.wait_group
    }

    /// Whether the unit was added; only a count that would grow past `usize` prevents it.
    pub closed spec fn holds_unit(self) -> bool {
        self.counted
    }

    fn new(wait_group: Arc<WaitGroupImpl>) -> (r: Self)
        ensures
            r.group() == *wait_group,
    {
        let counted = wait_group.increment().is_ok();
        Doer { wait_group, counted }
    }

    fn unique(wait_group: Arc<WaitGroupImpl>) -> (r: Option<Self>)
        ensures
            exists|seen: usize| #[trigger] gated_effect(seen as int, 1, r is Some),
            r matches Some(d) ==> d.group() == *wait_group && d.holds_unit(),
    {
        if wait_group.increment_if_empty() {
            Some(Doer { wait_group, counted: true })
        } else {
            None
        }
    }

    /// Gives the unit back; waiters are woken if it was the last one.
    pub fn done(self) -> (r: Result<()>)
        ensures
            !self.holds_unit() ==> r is Ok,
            r matches Err(e) ==> e == WaitGroupError::NegativeCounter(-1isize),
    {
        if self.counted {
            self.wait_group.try_done()
        } else {
            Ok(())
        }
    }
}

impl Clone for Doer {
    /// Another doer of the same group, which adds one more unit.
    fn clone(&self) -> (r: Self)
        ensures
            r.group() == self.group(),
    {
        Doer::new(share(&self.wait_group))
    }
}

/// May wait on its wait group, and never changes the count.
#[must_use]
#[derive(Clone)]
pub struct Waiter {
    wait_group: Arc<WaitGroupImpl>,
}

impl Waiter {
    /// The engine that this waiter waits on.
    pub closed spec fn group(self) -> WaitGroupImpl {
        *self.wait_group
    }

    fn new(wait_group: Arc<WaitGroupImpl>) -> (r: Self)
        ensures
            r.group() == *wait_group,
    {
        Waiter { wait_group }
    }

    /// Blocks until the group's count is zero; fails with `Unexpected` only on a poisoned
    /// lock.
    pub fn wait(&self) -> (r: Result<()>)
        ensures
            r matches Err(e) ==> e is Unexpected,
    {
        self.wait_group.wait()
    }
}

} // verus!
