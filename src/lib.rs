use vstd::prelude::*;

pub mod counter;
pub mod go_wait_group;
pub mod guard_wait_group;
mod lock;
pub mod manual_wait_group;
mod shared;
pub mod smart_wait_group;
pub mod wait_group;
pub mod wait_group_error;
pub mod wait_group_impl;

pub use go_wait_group::GoWaitGroup;
pub use guard_wait_group::GuardWaitGroup;
pub use manual_wait_group::ManualWaitGroup;
pub use smart_wait_group::{Doer, Order, SmartWaitGroup, Waiter};
pub use wait_group::WaitGroup;
pub use wait_group_error::{Result, WaitGroupError};

verus! {

} // verus!
