//! Error kinds of the store and of the multi-phase synchronization protocol.

use vstd::prelude::*;

verus! {

/// Failure of a single primitive store operation.
#[derive(Clone, Copy, Debug, PartialEq, Eq, Structural)]
pub enum StoreError {
    /// The store endpoint could not be reached (connection or transport
    /// failure); the effect of the operation is unknown to the caller.
    StoreUnavailable,
    /// A read addressed a field that is absent (or whose bucket expired).
    NotFound,
    /// A value could not be encoded for storage.
    SerializationError,
    /// A stored payload does not decode as the expected record type.
    DeserializationError,
}

/// Failure of a mutate-then-broadcast operation, tagged with the phase that
/// failed first.  A `Broadcast` failure means the record mutation had already
/// been applied and is left in place: the record is authoritative, the
/// broadcast is best-effort.
#[derive(Clone, Copy, Debug, PartialEq, Eq, Structural)]
pub enum SyncError {
    /// The record mutation (or the read feeding it) failed; nothing was
    /// broadcast.
    Mutation(StoreError),
    /// The mutation succeeded but the broadcast did not go out.
    Broadcast(StoreError),
}

} // verus!
