//! Synchronization primitives for a cooperative, polling-based task model:
//! an exclusive-borrow cell with poisoning, a latest-value broadcast channel,
//! and the state machine of a thread parker with its blocking-wait driver.
//!
//! Wakers are plain task identifiers: an operation that registers interest
//! records the caller's identifier, and an operation that releases a resource
//! hands back the identifiers that the scheduler must wake.

pub mod poll;
pub mod borrow;
pub mod watch;
pub mod parker;
pub mod harness;

pub use poll::Async;
pub use borrow::{Borrow, BorrowError, BorrowGuard, BorrowState, MappedGuard, TryBorrowError};
pub use watch::{SubState, WatchChannel, WatchEvent};
pub use parker::{ParkAction, ParkState, ThreadNotify, WakeAction};
pub use harness::{wait_step, wait_timeout_step, TimeoutError, WaitStep};
