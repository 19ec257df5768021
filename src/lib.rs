//! Synchronization primitives on a lock-protected, flag-gated slot: a
//! single-use channel in three ownership shapes, and a spin lock.

pub mod borrowed;
pub mod channel;
pub mod guarded;
mod mutex;
pub mod oneshot;
pub mod slot;
pub mod spin_lock;
