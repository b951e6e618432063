//! The counting engine: a count under a mutex, and a condition that is signalled when it
//! reaches zero.
use crate::counter::{add_delta, add_effect, add_if_idle, add_up, gated_effect, is_quiescent, wakes_waiters};
use crate::lock::{lock_count, read_count, wait_until_idle, write_count, CountLock};
use crate::wait_group_error::{decimal, decimal_text, Result, WaitGroupError};
use vstd::prelude::*;

verus! {

/// The state that every handle of one wait group shares.
pub struct WaitGroupImpl {
    lock: CountLock,
}

impl WaitGroupImpl {
    /// A quiescent engine.
    pub fn new() -> (r: WaitGroupImpl) {
        WaitGroupImpl { lock: CountLock::new() }
    }

    /// Blocks until the count is zero; returns at once when it already is. Fails with
    /// `Unexpected` only when the lock was poisoned by a thread that panicked while holding
    /// it, and the count was not zero when the waiter woke.
    pub fn wait(&self) -> (r: Result<()>)
        ensures
            r matches Err(e) ==> e is Unexpected,
    {
        match self.wait_for_zero() {
            Ok(_) => Ok(()),
            Err(e) => Err(e),
        }
    }

    /// Blocks until the count is zero, and returns the count that it saw under the lock.
    pub(crate) fn wait_for_zero(&self) -> (r: Result<usize>)
        ensures
            r matches Ok(seen) ==> is_quiescent(seen as int),
            r matches Err(e) ==> e is Unexpected,
    {
        let g = lock_count(&self.lock);
        match wait_until_idle(g) {
            Ok(h) => Ok(read_count(&h)),
            Err(h) => {
                let seen = read_count(&h);
                if wakes_waiters(seen) {
                    Ok(seen)
                } else {
                    Err(WaitGroupError::Unexpected(String::from_str("the lock was poisoned while waiting")))
                }
            },
        }
    }

    /// Adds `delta` only if the count is zero at the time of the check, which is made under
    /// the same lock as the addition. Returns whether the addition was made.
    pub fn add_if_empty(&self, delta: usize) -> (r: bool)
        ensures
            exists|seen: usize| #[trigger] gated_effect(seen as int, delta as int, r),
    {
        let mut g = lock_count(&self.lock);
        let seen = read_count(&g);
        match add_if_idle(seen, delta) {
            Some(n) => {
                write_count(&mut g, n);
                assert(gated_effect(seen as int, delta as int, true));
                true
            },
            None => {
                assert(gated_effect(seen as int, delta as int, false));
                false
            },
        }
    }

    /// Adds one only if the count is zero; returns whether it did.
    pub fn increment_if_empty(&self) -> (r: bool)
        ensures
            exists|seen: usize| #[trigger] gated_effect(seen as int, 1, r),
    {
        self.add_if_empty(1)
    }

    /// Adds one to the count.
    pub fn increment(&self) -> (r: Result<()>)
        ensures
            exists|seen: usize| #[trigger] add_effect(seen as int, 1, r),
            r matches Err(e) ==> e is Unexpected,
    {
        self.add_unchecked(1)
    }

    /// Adds `delta` to the count and wakes the waiters when it becomes zero. Refused, with
    /// nothing stored, when the count would go below zero or grow past `usize`.
    pub fn try_add(&self, delta: isize) -> (r: Result<()>)
        ensures
            exists|seen: usize| #[trigger] add_effect(seen as int, delta as int, r),
    {
        let mut g = lock_count(&self.lock);
        let seen = read_count(&g);
        match add_delta(seen, delta) {
            Ok(n) => {
                write_count(&mut g, n);
                self.notify_if_empty(n);
                assert(add_effect(seen as int, delta as int, Ok(())));
                Ok(())
            },
            Err(e) => {
                assert(add_effect(seen as int, delta as int, Err(e)));
                Err(e)
            },
        }
    }

    /// Adds a non-negative `delta`, which can fail only when the count would grow past `usize`.
    pub fn add_unchecked(&self, delta: usize) -> (r: Result<()>)
        ensures
            exists|seen: usize| #[trigger] add_effect(seen as int, delta as int, r),
            r matches Err(e) ==> e is Unexpected,
    {
        let mut g = lock_count(&self.lock);
        let seen = read_count(&g);
        match add_up(seen, delta) {
            Ok(n) => {
                write_count(&mut g, n);
                assert(add_effect(seen as int, delta as int, Ok(())));
                Ok(())
            },
            Err(e) => {
                assert(add_effect(seen as int, delta as int, Err(e)));
                Err(e)
            },
        }
    }

    /// Takes one from the count; on a quiescent engine this fails with `NegativeCounter(-1)`.
    pub fn try_done(&self) -> (r: Result<()>)
        ensures
            exists|seen: usize| #[trigger] add_effect(seen as int, -1, r),
            r matches Err(e) ==> e == WaitGroupError::NegativeCounter(-1isize),
    {
        self.try_add(-1)
    }

    /// Wakes every waiter when `count` is zero.
    pub fn notify_if_empty(&self, count: usize) {
        if wakes_waiters(count) {
            self.lock.notify_all();
        }
    }

    /// A snapshot of the count, which may be stale as soon as it is returned.
    pub fn counter(&self) -> (r: usize) {
        let g = lock_count(&self.lock);
        read_count(&g)
    }

    /// The engine as text, with a snapshot of its count.
    pub fn describe(&self) -> (r: String)
        ensures
            exists|seen: usize| r@ == "WaitGroup { count "@ + decimal(seen as int) + " }"@,
    {
        let seen = self.counter();
        String::from_str("WaitGroup { count ").concat(decimal_text(seen as i128).as_str()).concat(" }")
    }
}

} // verus!
