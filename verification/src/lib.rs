//! Asynchronous receive path of a single-consumer channel.
//!
//! The crate models the consumer side of a multi-producer channel as an
//! explicit state machine: a lock-protected shared core (pending-message
//! queue, registered wakers, lifecycle mode), a consumer-local buffer that
//! amortizes lock acquisitions, and a poll engine that decides between
//! immediate delivery, suspension with waker registration, and busy retry.
//! Wakers are carried as opaque `u64` handles; an embedding layer maps them
//! to real task wakers and drives the state machine from an executor.

pub mod future;
pub mod laws;
pub mod receiver;
pub mod shared;
