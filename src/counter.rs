//! The counter's transitions as pure functions of the count observed under the lock.
use crate::wait_group_error::WaitGroupError;
use vstd::prelude::*;

verus! {

/// The count after adding `delta` to `count`, when it is a count the engine can hold.
pub open spec fn next_count(count: int, delta: int) -> Option<int> {
    if 0 <= count + delta <= usize::MAX {
        Some(count + delta)
    } else {
        None
    }
}

/// `r` is what adding `delta` to the count `count` gives: the new count, `NegativeCounter` with
/// the value the count would have had, or `Unexpected` when the count would grow past `usize`.
pub open spec fn add_outcome(count: int, delta: int, r: std::result::Result<usize, WaitGroupError>) -> bool {
    match r {
        Ok(n) => next_count(count, delta) == Some(n as int),
        Err(WaitGroupError::NegativeCounter(v)) => count + delta < 0 && v == count + delta,
        Err(WaitGroupError::Unexpected(_)) => count + delta > usize::MAX,
        Err(WaitGroupError::IdentityViolation) => false,
    }
}

/// The same outcome, with the new count left out.
pub open spec fn add_effect(count: int, delta: int, r: std::result::Result<(), WaitGroupError>) -> bool {
    match r {
        Ok(_) => next_count(count, delta) is Some,
        Err(WaitGroupError::NegativeCounter(v)) => count + delta < 0 && v == count + delta,
        Err(WaitGroupError::Unexpected(_)) => count + delta > usize::MAX,
        Err(WaitGroupError::IdentityViolation) => false,
    }
}

/// A waiter may return only while the count is zero.
pub open spec fn is_quiescent(count: int) -> bool {
    count == 0
}

/// Applies the additions in `deltas` one after another from `count`; `None` once one fails.
pub open spec fn run(count: int, deltas: Seq<int>) -> Option<int>
    decreases deltas.len(),
{
    if deltas.len() == 0 {
        Some(count)
    } else {
        match next_count(count, deltas[0]) {
            Some(c) => run(c, deltas.drop_first()),
            None => None,
        }
    }
}

/// `n` additions of one.
pub open spec fn increments(n: nat) -> Seq<int> {
    Seq::new(n, |i: int| 1)
}

/// `n` additions of minus one.
pub open spec fn decrements(n: nat) -> Seq<int> {
    Seq::new(n, |i: int| -1)
}

/// Whether a thread that waits on the count `count` has to go on waiting.
pub fn is_busy(count: usize) -> (r: bool)
    ensures
        r == !is_quiescent(count as int),
{
    count > 0
}

/// Adds `delta` to the count `count`.
pub fn add_delta(count: usize, delta: isize) -> (r: std::result::Result<usize, WaitGroupError>)
    ensures
        add_outcome(count as int, delta as int, r),
{
    if delta < 0 {
        let down: usize = (-(delta as i128)) as usize;
        if down > count {
            let v: isize = (count as i128 + delta as i128) as isize;
            Err(WaitGroupError::NegativeCounter(v))
        } else {
            Ok(count - down)
        }
    } else {
        let up: usize = delta as usize;
        if up > usize::MAX - count {
            Err(WaitGroupError::Unexpected(String::from_str("the counter would exceed its largest value")))
        } else {
            Ok(count + up)
        }
    }
}

/// The count after a gated addition of `delta`: granted only when `count` is zero.
pub open spec fn gated_count(count: int, delta: int) -> Option<int> {
    if is_quiescent(count) {
        Some(delta)
    } else {
        None
    }
}

/// Adds the non-negative `delta` to the count `count`.
pub fn add_up(count: usize, delta: usize) -> (r: std::result::Result<usize, WaitGroupError>)
    ensures
        add_outcome(count as int, delta as int, r),
{
    if delta > usize::MAX - count {
        Err(WaitGroupError::Unexpected(String::from_str("the counter would exceed its largest value")))
    } else {
        Ok(count + delta)
    }
}

/// `r` says whether a gated addition of `delta` to the count `count` was granted.
pub open spec fn gated_effect(count: int, delta: int, r: bool) -> bool {
    r == gated_count(count, delta) is Some
}

/// The count after a gated addition: `delta` when the count `count` is zero, nothing otherwise.
pub fn add_if_idle(count: usize, delta: usize) -> (r: Option<usize>)
    ensures
        r matches Some(n) ==> gated_count(count as int, delta as int) == Some(n as int),
        r is None ==> gated_count(count as int, delta as int) is None,
{
    if count == 0 {
        Some(delta)
    } else {
        None
    }
}

/// Whether waiters are to be woken once the count `count` is stored.
pub fn wakes_waiters(count: usize) -> (r: bool)
    ensures
        r == is_quiescent(count as int),
{
    count == 0
}

/// Running `a` and then `b` is running their concatenation.
pub proof fn lemma_run_concat(count: int, a: Seq<int>, b: Seq<int>)
    ensures
        run(count, a + b) == match run(count, a) {
            Some(c) => run(c, b),
            None => None,
        },
    decreases a.len(),
{
    if a.len() == 0 {
        assert(a + b =~= b);
    } else {
        assert((a + b).drop_first() =~= a.drop_first() + b);
        assert((a + b)[0] == a[0]);
        if let Some(c) = next_count(count, a[0]) {
            lemma_run_concat(c, a.drop_first(), b);
        }
    }
}

/// From `count`, `n` increments succeed and add `n`, as long as the result is a count.
pub proof fn lemma_run_increments(count: int, n: nat)
    requires
        0 <= count,
        count + n <= usize::MAX,
    ensures
        run(count, increments(n)) == Some(count + n),
    decreases n,
{
    if n > 0 {
        assert(increments(n).drop_first() =~= increments((n - 1) as nat));
        lemma_run_increments(count + 1, (n - 1) as nat);
    }
}

/// From `count`, `m` decrements succeed and take `m` away, as long as `m` is at most `count`.
pub proof fn lemma_run_decrements(count: int, m: nat)
    requires
        m <= count <= usize::MAX,
    ensures
        run(count, decrements(m)) == Some(count - m),
    decreases m,
{
    if m > 0 {
        assert(decrements(m).drop_first() =~= decrements((m - 1) as nat));
        lemma_run_decrements(count - 1, (m - 1) as nat);
    }
}

/// On a fresh counter, `n` increments followed by `n` decrements all succeed and bring the
/// count back to zero, where a waiter returns at once.
pub proof fn lemma_balanced_returns_to_zero(n: nat)
    requires
        n <= usize::MAX,
    ensures
        run(0, increments(n) + decrements(n)) == Some(0int),
        is_quiescent(0),
{
    lemma_run_concat(0, increments(n), decrements(n));
    lemma_run_increments(0, n);
    lemma_run_decrements(n as int, n);
}

/// With `n` units outstanding, waiters stay blocked after each of the first `n - 1` decrements
/// and may all return after the `n`-th.
pub proof fn lemma_waiters_released_by_last_decrement(n: nat, m: nat)
    requires
        m <= n <= usize::MAX,
    ensures
        run(n as int, decrements(m)) == Some(n - m),
        is_quiescent(n - m) <==> m == n,
{
    lemma_run_decrements(n as int, m);
}

/// Taking one from a quiescent counter fails with `NegativeCounter(-1)`, and nothing is stored.
pub proof fn lemma_decrement_quiescent(r: std::result::Result<usize, WaitGroupError>)
    requires
        add_outcome(0, -1, r),
    ensures
        r matches Err(WaitGroupError::NegativeCounter(v)) && v == -1,
        next_count(0, -1) is None,
{
}

/// A gated addition never succeeds while units are outstanding, and always does on a
/// quiescent counter.
pub proof fn lemma_gated_add_needs_quiescence(count: nat, delta: nat)
    ensures
        count > 0 ==> gated_count(count as int, delta as int) is None,
        count == 0 ==> gated_count(count as int, delta as int) == Some(delta as int),
{
}

} // verus!
