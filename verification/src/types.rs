//! Plain record types carried through the store and its broadcasts.

pub mod auth;
pub mod bandwidth;
pub mod connection;
pub mod masternode;
pub mod msg_queue;
pub mod partner;
pub mod reward;
pub mod stats;
pub mod stream_payload;
pub mod task;
pub mod tier;
