//! A small io_uring library: the ring's bookkeeping, its operations and the
//! kernel ABI structures.
//!
//! What touches kernel memory or makes a syscall is done by the caller; this
//! module holds the arithmetic and the decisions around it.

pub mod error;
pub mod cq;
pub mod ops;
pub mod syscall;
pub mod reclaim;
pub mod dispatcher;
