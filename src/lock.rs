//! The std locking primitives that the engine is built on: a mutex holding the count, paired
//! with the condition that waiters park on.
use std::sync::{Condvar, Mutex, MutexGuard};
use vstd::prelude::*;

verus! {

/// std's mutex, which holds the count.
#[verifier::external_type_specification]
#[verifier::external_body]
#[verifier::reject_recursive_types(T)]
pub struct ExMutex<T: ?Sized>(Mutex<T>);

/// std's guard of a locked mutex.
#[verifier::external_type_specification]
#[verifier::external_body]
#[verifier::reject_recursive_types(T)]
pub struct ExMutexGuard<'a, T: ?Sized + 'a>(MutexGuard<'a, T>);

/// std's condition variable, on which waiters park.
#[verifier::external_type_specification]
#[verifier::external_body]
pub struct ExCondvar(Condvar);

/// The count that a guard gives access to: what its Deref reads and its DerefMut writes.
pub uninterp spec fn held_count(g: MutexGuard<'_, usize>) -> usize;

/// Relies on Mutex::new, which makes an unlocked mutex around `t`.
pub assume_specification<T>[ Mutex::<T>::new ](t: T) -> Mutex<T>;

/// Relies on Condvar::new, which makes a condition with no waiter.
pub assume_specification[ Condvar::new ]() -> Condvar;

/// Relies on Condvar::notify_all, which wakes every thread blocked on the condition.
pub assume_specification[ Condvar::notify_all ](cv: &Condvar);

/// A count under a mutex, and the one condition that is used with that mutex.
pub struct CountLock {
    counter: Mutex<usize>,
    condition: Condvar,
}

/// The lock of a `CountLock` held, together with the `CountLock` it belongs to. Only
/// `lock_count` and `wait_until_idle` make one, and always from the mutex of the `CountLock`
/// that it carries.
pub struct CountGuard<'a> {
    pub(crate) lock: &'a CountLock,
    pub(crate) guard: MutexGuard<'a, usize>,
}

impl CountLock {
    /// A lock around the count zero.
    pub fn new() -> (r: CountLock) {
        CountLock { counter: Mutex::new(0usize), condition: Condvar::new() }
    }

    /// Wakes every thread that waits on this lock's condition.
    pub fn notify_all(&self) {
        self.condition.notify_all();
    }
}

/// Relies on Mutex::lock: blocks until the lock is free and returns its guard. A poisoned
/// lock is entered all the same. std documents a panic only when the calling thread already
/// holds the lock, and no function of this crate locks while holding a guard.
#[verifier::external_body]
pub(crate) fn lock_count(l: &CountLock) -> (g: CountGuard<'_>) {
    CountGuard { lock: l, guard: l.counter.lock().unwrap_or_else(std::sync::PoisonError::into_inner) }
}

/// Relies on MutexGuard's Deref: reads the count under the lock.
#[verifier::external_body]
pub(crate) fn read_count(g: &CountGuard<'_>) -> (r: usize)
    ensures
        r == held_count(g.guard),
{
    *g.guard
}

/// Relies on MutexGuard's DerefMut: stores a count under the lock.
#[verifier::external_body]
pub(crate) fn write_count(g: &mut CountGuard<'_>, v: usize)
    ensures
        held_count(final(g).guard) == v,
{
    *g.guard = v;
}

/// Relies on Condvar::wait_while, on the condition that belongs to the guard's own mutex: it
/// releases the lock while parked and checks the count again after every wake-up. On `Ok` it
/// returns once the count is zero. On `Err` the mutex was poisoned, and the guard, locked
/// again, may hold any count.
#[verifier::external_body]
pub(crate) fn wait_until_idle<'a>(g: CountGuard<'a>) -> (r: Result<CountGuard<'a>, CountGuard<'a>>)
    ensures
        r matches Ok(h) ==> held_count(h.guard) == 0,
{
    let CountGuard { lock, guard } = g;
    match lock.condition.wait_while(guard, |c| crate::counter::is_busy(*c)) {
        Ok(guard) => Ok(CountGuard { lock, guard }),
        Err(e) => Err(CountGuard { lock, guard: e.into_inner() }),
    }
}

} // verus!
