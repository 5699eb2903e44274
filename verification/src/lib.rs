//! An asynchronous completion barrier.
//!
//! A coordinator creates a participant handle, hands clones of it to
//! concurrent workers, and turns its own handle into a waiter. The barrier
//! completes the moment the last outstanding handle is released; no worker
//! ever signals "done" explicitly. Completion fires the single registered
//! wake callback exactly once.
//!
//! Barrier state lives in a slot table ([`Registry`]): each barrier is one
//! slot holding an explicit count of outstanding handles and a single wake
//! registration. A handle or waiter is a token naming its slot, and a waiter
//! observes liveness through the count rather than by keeping the slot
//! alive, so a completed barrier stays completed forever.
//!
//! Only one waiter per barrier is supported: the wake slot holds a single
//! registration and a later one overwrites an earlier one, so only the most
//! recently registered waiter is guaranteed to be notified.

pub mod barrier;
pub mod laws;
pub mod state;

pub use barrier::{AwaitGroup, AwaitGroupFuture, PollState, Registry};
