//! Transaction-status resolution for a multi-version transactional
//! key-value store.
//!
//! A transaction that meets a lock left by another transaction asks what
//! became of that other transaction. The answer is derived from the lock on
//! the primary key and from the key's write records alone; the decision, the
//! mutations it prescribes and the waiters it releases are all stated in the
//! contracts of this crate and proved.

pub mod timestamp;
pub mod records;
pub mod batch;
pub mod state;
pub mod resolver;
pub mod engine;
pub mod laws;
