//! State-synchronization layer for a decentralized proxy network.
//!
//! The crate keeps ephemeral facts (connected peers, advertised prices,
//! proxy-account credentials, task milestones) in hash-structured buckets of a
//! shared key-value store, maintains an ordered peer queue as a sorted set,
//! and fans change notifications out over pub/sub channels.  The store
//! semantics are modelled here as verified in-memory structures; an adapter
//! around a real Redis endpoint lives outside the verified library.

pub mod assoc;
pub mod bus;
pub mod errors;
pub mod events;
pub mod keys;
pub mod laws;
pub mod queue;
pub mod store;
pub mod sync;
pub mod types;
pub mod uri;
pub mod text;
