//! Shared ownership of an engine through std's `Arc`.
use crate::wait_group_impl::WaitGroupImpl;
use std::sync::Arc;
use vstd::prelude::*;

verus! {

/// Relies on Arc's Clone: a new reference to the same engine.
#[verifier::external_body]
pub(crate) fn share(a: &Arc<WaitGroupImpl>) -> (r: Arc<WaitGroupImpl>)
    ensures
        r == *a,
{
    Arc::clone(a)
}

/// Relies on Arc::ptr_eq: whether both references point at one engine.
#[verifier::external_body]
pub(crate) fn same_engine(a: &Arc<WaitGroupImpl>, b: &Arc<WaitGroupImpl>) -> (r: bool)
    ensures
        r ==> *a == *b,
{
    Arc::ptr_eq(a, b)
}

} // verus!
