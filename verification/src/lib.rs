//! A keyed lock: mutually exclusive access to resources identified by keys.
//!
//! The bookkeeping that decides when a key gets a lock of its own and when
//! that lock is retired lives in `registry`; the blocking keyed lock built on
//! it lives in `sync`, the tokio-based one in `asynchronous`.
pub mod asynchronous;
pub mod key;
pub mod laws;
pub mod registry;
pub mod sync;
mod locking;
