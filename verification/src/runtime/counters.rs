//! The counters that every session and context of one database shares.
//!
//! The counters cache the durable high-water marks. They are plain atomic
//! integers: an allocation is one indivisible update, nothing blocks, and
//! Verus sees none of their contents. What an allocation returns is
//! therefore stated as a function of the value it read, in
//! [`crate::data::id`].
//!
//! Beside the counters stands the state of their seeding, which moves from
//! unseeded over seeding to ready. Only the call that moves it from unseeded
//! to seeding, in one compare-and-swap, seeds the counters; it moves the
//! state on to ready when it has, or back to unseeded when it could not.
use crate::data::id::AttrId;
use crate::data::id::EntityId;
use crate::data::id::TxId;
use crate::data::id::next_u64;
use crate::data::id::next_usize;
use crate::data::id::session_ordinal_after;
use std::sync::Arc;
use std::sync::atomic::AtomicU64;
use std::sync::atomic::AtomicU8;
use std::sync::atomic::AtomicUsize;
use std::sync::atomic::Ordering;
use vstd::prelude::*;

verus! {

/// The counters have not been seeded, and no call is seeding them.
pub const UNSEEDED: u8 = 0;

/// One call is seeding the counters.
pub const SEEDING: u8 = 1;

/// The counters have been seeded.
pub const READY: u8 = 2;

/// The highest identifier of each kind that the store records.
#[derive(Clone, Copy, Debug, PartialEq, Eq, Structural)]
pub struct HighWaterMarks {
    pub attr: AttrId,
    pub ent: EntityId,
    pub tx: TxId,
}

/// `Arc::clone`: a second reference to the same shared value.
#[verifier::external_body]
fn share_arc<T>(shared: &Arc<T>) -> (again: Arc<T>)
    ensures
        again == *shared,
{
    Arc::clone(shared)
}

/// `AtomicU64::fetch_update` with [`next_u64`] as the update: reads the
/// counter and, where `next_u64` of the value read is some value, stores
/// that value, in one indivisible step. Returns the value read, as `Ok`
/// where the counter was updated and as `Err` where `next_u64` gave nothing
/// and the counter was left as it was.
#[verifier::external_body]
fn advance_u64(counter: &AtomicU64) -> (read: Result<u64, u64>)
    ensures
        read matches Ok(prev) ==> prev < u64::MAX,
        read matches Err(prev) ==> prev == u64::MAX,
{
    counter.fetch_update(Ordering::AcqRel, Ordering::Acquire, next_u64)
}

/// `AtomicUsize::fetch_update` with [`next_usize`] as the update: reads the
/// counter and, where `next_usize` of the value read is some value, stores
/// that value, in one indivisible step. Returns the value read, as `Ok`
/// where the counter was updated and as `Err` where `next_usize` gave
/// nothing and the counter was left as it was.
#[verifier::external_body]
fn advance_usize(counter: &AtomicUsize) -> (read: Result<usize, usize>)
    ensures
        read matches Ok(prev) ==> prev < usize::MAX,
        read matches Err(prev) ==> prev == usize::MAX,
{
    counter.fetch_update(Ordering::AcqRel, Ordering::Acquire, next_usize)
}

/// The value an allocation read off its counter, whether it moved the
/// counter on or found it at its ceiling.
pub fn value_read_u64(read: Result<u64, u64>) -> (prev: u64)
    ensures
        prev == (match read {
            Ok(prev) => prev,
            Err(prev) => prev,
        }),
{
    match read {
        Ok(prev) => prev,
        Err(prev) => prev,
    }
}

/// The value an allocation read off the session counter, whether it moved
/// the counter on or found it at its ceiling.
pub fn value_read_usize(read: Result<usize, usize>) -> (prev: usize)
    ensures
        prev == (match read {
            Ok(prev) => prev,
            Err(prev) => prev,
        }),
{
    match read {
        Ok(prev) => prev,
        Err(prev) => prev,
    }
}

/// The shared state of one database: the last identifier issued of each
/// kind, the number of sessions created, and the state of the seeding.
pub struct SharedCounters {
    last_attr_id: Arc<AtomicU64>,
    last_ent_id: Arc<AtomicU64>,
    last_tx_id: Arc<AtomicU64>,
    n_sessions: Arc<AtomicUsize>,
    seed_state: Arc<AtomicU8>,
}

impl SharedCounters {
    /// Counters of a database that has issued nothing and is not seeded.
    pub fn new() -> SharedCounters {
        SharedCounters {
            last_attr_id: Arc::new(AtomicU64::new(0)),
            last_ent_id: Arc::new(AtomicU64::new(0)),
            last_tx_id: Arc::new(AtomicU64::new(0)),
            n_sessions: Arc::new(AtomicUsize::new(0)),
            seed_state: Arc::new(AtomicU8::new(UNSEEDED)),
        }
    }

    /// A second handle to the same counters.
    pub fn share(&self) -> (shared: SharedCounters)
        ensures
            shared == *self,
    {
        SharedCounters {
            last_attr_id: share_arc(&self.last_attr_id),
            last_ent_id: share_arc(&self.last_ent_id),
            last_tx_id: share_arc(&self.last_tx_id),
            n_sessions: share_arc(&self.n_sessions),
            seed_state: share_arc(&self.seed_state),
        }
    }

    /// Issues the next attribute identifier; `None` once the counter stands
    /// at its ceiling, where it stays.
    pub fn allocate_attr_id(&self) -> (issued: Option<AttrId>)
        ensures
            issued matches Some(id) ==> id.0 >= 1,
    {
        AttrId::after(value_read_u64(advance_u64(&self.last_attr_id)))
    }

    /// Issues the next entity identifier; `None` once the counter stands at
    /// its ceiling, where it stays.
    pub fn allocate_entity_id(&self) -> (issued: Option<EntityId>)
        ensures
            issued matches Some(id) ==> id.0 >= 1,
    {
        EntityId::after(value_read_u64(advance_u64(&self.last_ent_id)))
    }

    /// Issues the next transaction identifier; `None` once the counter
    /// stands at its ceiling, where it stays.
    pub fn allocate_tx_id(&self) -> (issued: Option<TxId>)
        ensures
            issued matches Some(id) ==> id.0 >= 1,
    {
        TxId::after(value_read_u64(advance_u64(&self.last_tx_id)))
    }

    /// Counts one more session and gives its ordinal; `None` once the
    /// counter stands at its ceiling, where it stays.
    pub fn register_session(&self) -> (ordinal: Option<usize>)
        ensures
            ordinal matches Some(n) ==> n >= 1,
    {
        session_ordinal_after(value_read_usize(advance_usize(&self.n_sessions)))
    }

    /// The state of the seeding, as of some instant during the call.
    pub fn seed_state(&self) -> u8 {
        self.seed_state.load(Ordering::Acquire)
    }

    /// Tries to move the state of the seeding from unseeded to seeding, in
    /// one compare-and-swap. `Ok` says that this call made the move and is
    /// the one to seed; `Err` holds the state found instead.
    pub fn claim_seeding(&self) -> Result<u8, u8> {
        self.seed_state.compare_exchange(UNSEEDED, SEEDING, Ordering::AcqRel, Ordering::Acquire)
    }

    /// Moves the state of the seeding back to unseeded. For the call that
    /// holds the claim and could not seed.
    pub fn release_seeding(&self) {
        self.seed_state.store(UNSEEDED, Ordering::Release);
    }

    /// Raises each of the three identifier counters to the mark read from
    /// the store, where it stands below it, and moves the state of the
    /// seeding to ready. No counter is lowered.
    pub fn seed(&self, marks: HighWaterMarks) {
        self.last_tx_id.fetch_max(marks.tx.0, Ordering::AcqRel);
        self.last_attr_id.fetch_max(marks.attr.0, Ordering::AcqRel);
        self.last_ent_id.fetch_max(marks.ent.0, Ordering::AcqRel);
        self.seed_state.store(READY, Ordering::Release);
    }

    /// Whether the counters have been seeded, as of some instant during the
    /// call.
    pub fn is_seeded(&self) -> bool {
        self.seed_state.load(Ordering::Acquire) == READY
    }

    /// The last attribute identifier issued, as of some instant during the
    /// call.
    pub fn last_attr_id(&self) -> AttrId {
        AttrId(self.last_attr_id.load(Ordering::Acquire))
    }

    /// The last entity identifier issued, as of some instant during the call.
    pub fn last_ent_id(&self) -> EntityId {
        EntityId(self.last_ent_id.load(Ordering::Acquire))
    }

    /// The last transaction identifier issued, as of some instant during the
    /// call.
    pub fn last_tx_id(&self) -> TxId {
        TxId(self.last_tx_id.load(Ordering::Acquire))
    }

    /// The number of sessions created, as of some instant during the call.
    pub fn n_sessions(&self) -> usize {
        self.n_sessions.load(Ordering::Acquire)
    }
}

} // verus!
