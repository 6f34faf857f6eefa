//! What can go wrong in this layer.
use crate::runtime::store::StoreStatus;
use vstd::prelude::*;

verus! {

/// Why the identifier ledger could not be read.
#[derive(Debug, PartialEq, Eq)]
pub enum StorageFault {
    /// The engine reported a failure.
    Engine(StoreStatus),
    /// The last row of a ledger range is not a well-formed high-water row.
    MalformedKey,
    /// The ledger was needed and the caller had not read it.
    NotRead,
    /// Another call is seeding the counters at this moment. The call may be
    /// repeated.
    InProgress,
}

/// The failures of this layer. None is retried here: each surfaces to the
/// immediate caller.
#[derive(Debug, PartialEq, Eq)]
pub enum DbError {
    /// The engine could not open the store.
    StorageInit(StoreStatus),
    /// The high-water marks could not be read when the first session was
    /// requested. The database stays usable for a later attempt.
    Bootstrap(StorageFault),
    /// The last committed transaction could not be resolved for a new
    /// context.
    Snapshot(StorageFault),
    /// A counter has reached the end of its range and issues nothing more.
    CounterExhausted,
    /// An identifier was requested from a context that cannot persist it.
    ReadOnly,
    /// The operation has no defined behaviour yet.
    Unimplemented,
}

} // verus!
