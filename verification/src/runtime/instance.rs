//! The database handle and its sessions.
//!
//! A database owns the shared counters. The handle that [`Db::build`]
//! returns is the root: it carries ordinal zero and serves to create
//! sessions. A session is a further handle of the same type, with an
//! ordinal of its own, that shares the counters of its parent. Nothing here
//! locks: sessions may work concurrently, and all coordination goes through
//! the atomic counters.
//!
//! The storage engine stays with the caller. Where an operation depends on
//! what the store holds, the caller reads it and hands the answer in.
use crate::data::id::AttrId;
use crate::data::id::EntityId;
use crate::data::id::TxId;
use crate::runtime::counters::HighWaterMarks;
use crate::runtime::counters::READY;
use crate::runtime::counters::SharedCounters;
use crate::runtime::error::DbError;
use crate::runtime::error::StorageFault;
use crate::runtime::store::LedgerTail;
use crate::runtime::store::StoreStatus;
use crate::runtime::transact::ReadAt;
use crate::runtime::transact::SessionTx;
use crate::runtime::transact::SessionTxView;
use crate::runtime::transact::TxLog;
use crate::runtime::transact::high_water_marks;
use crate::runtime::transact::marks_of;
use crate::runtime::transact::read_version;
use vstd::prelude::*;

verus! {

/// A handle to a database: the root, or one of its sessions.
pub struct Db {
    counters: SharedCounters,
    session_id: usize,
}

/// `format!`: the one-line description of a handle, from its ordinal and
/// the values read off the four counters.
#[verifier::external_body]
fn render(session: usize, attrs: u64, entities: u64, txs: u64, sessions: usize) -> String {
    format!(
        "Db<session {}, attrs {}, entities {}, txs {}, sessions: {}>",
        session, attrs, entities, txs, sessions
    )
}

/// The fault that keeps the counters from being seeded from `tail`, if there
/// is one: the ledger was not read, or what was read holds a fault.
pub open spec fn seeding_fault(tail: Option<LedgerTail>) -> Option<StorageFault> {
    match tail {
        None => Some(StorageFault::NotRead),
        Some(tail) => match marks_of(tail) {
            Ok(_) => None,
            Err(fault) => Some(fault),
        },
    }
}

/// Whether a handle with this ordinal, finding the seeding in this state,
/// has to see to the seeding before it creates a session: only the root,
/// and only until the counters are seeded.
pub open spec fn bootstrap_due(ordinal: usize, state: u8) -> bool {
    ordinal == 0 && state != READY
}

/// Decides whether a handle with this ordinal, finding the seeding in this
/// state, has to see to the seeding before it creates a session.
pub fn is_bootstrap_due(ordinal: usize, state: u8) -> (due: bool)
    ensures
        due == bootstrap_due(ordinal, state),
{
    ordinal == 0 && state != READY
}

/// What a call that has to see to the seeding does next.
#[derive(Debug, PartialEq, Eq)]
pub enum SeedingStep {
    /// Another call has seeded the counters in the meantime: go on.
    Proceed,
    /// This call holds the claim and has the marks: seed the counters with
    /// them, move the state to ready and go on.
    Seed(HighWaterMarks),
    /// This call holds the claim and has no marks: move the state back to
    /// unseeded and fail with this fault.
    GiveUp(StorageFault),
    /// Another call holds the claim: fail and leave everything as it is.
    Busy,
}

/// What a call does next, given how its claim of the seeding ended and what
/// it was handed of the ledger.
pub open spec fn seeding_step_of(claim: Result<u8, u8>, tail: Option<LedgerTail>) -> SeedingStep {
    match claim {
        Ok(_) => match tail {
            None => SeedingStep::GiveUp(StorageFault::NotRead),
            Some(tail) => match marks_of(tail) {
                Ok(marks) => SeedingStep::Seed(marks),
                Err(fault) => SeedingStep::GiveUp(fault),
            },
        },
        Err(state) => if state == READY {
            SeedingStep::Proceed
        } else {
            SeedingStep::Busy
        },
    }
}

/// Decides what a call does next, given how its claim of the seeding ended
/// and what it was handed of the ledger.
pub fn seeding_step(claim: Result<u8, u8>, tail: Option<LedgerTail>) -> (step: SeedingStep)
    ensures
        step == seeding_step_of(claim, tail),
{
    match claim {
        Ok(_) => match tail {
            None => SeedingStep::GiveUp(StorageFault::NotRead),
            Some(tail) => match high_water_marks(tail) {
                Ok(marks) => SeedingStep::Seed(marks),
                Err(fault) => SeedingStep::GiveUp(fault),
            },
        },
        Err(state) => if state == READY {
            SeedingStep::Proceed
        } else {
            SeedingStep::Busy
        },
    }
}

impl Db {
    /// The ordinal of this handle: zero for the root, the position in the
    /// order of creation for a session.
    pub closed spec fn ordinal(&self) -> usize {
        self.session_id
    }

    /// The counters this handle allocates from.
    pub closed spec fn shared_counters(&self) -> SharedCounters {
        self.counters
    }

    /// The root handle on a store, given how the opening of the store with
    /// [`crate::runtime::store::store_options`] ended: on a store that
    /// opened, the root, with counters that have issued nothing yet; on one
    /// that did not, the engine's failure.
    pub fn build(opened: Result<(), StoreStatus>) -> (built: Result<Db, DbError>)
        ensures
            match opened {
                Ok(_) => built matches Ok(root) && root.ordinal() == 0,
                Err(status) => built matches Err(e) && e == DbError::StorageInit(status),
            },
    {
        match opened {
            Ok(()) => Ok(Db { counters: SharedCounters::new(), session_id: 0 }),
            Err(status) => Err(DbError::StorageInit(status)),
        }
    }

    /// The counters this handle allocates from.
    pub fn counters(&self) -> (counters: &SharedCounters)
        ensures
            *counters == self.shared_counters(),
    {
        &self.counters
    }

    /// The ordinal of this handle.
    pub fn session_id(&self) -> (id: usize)
        ensures
            id == self.ordinal(),
    {
        self.session_id
    }

    /// Whether the next [`Db::new_session`] on this handle may have to seed
    /// the counters, and so needs the ledger read: by [`is_bootstrap_due`],
    /// of the state of the seeding as this call finds it.
    pub fn needs_bootstrap(&self) -> (needed: bool)
        ensures
            needed ==> self.ordinal() == 0,
    {
        is_bootstrap_due(self.session_id, self.counters.seed_state())
    }

    /// Creates a session: a handle with a new ordinal on the same counters.
    ///
    /// On the root, and until the counters are seeded, the call first claims
    /// the seeding. The one call that gets the claim seeds the counters from
    /// `tail`; if `tail` is missing or holds a fault, it gives the claim
    /// back, no session is created and the call may be repeated. A call that
    /// finds the claim taken fails with [`StorageFault::InProgress`] and may
    /// be repeated as well. Elsewhere `tail` is not looked at. A call that
    /// fails counts no session.
    pub fn new_session(&self, tail: Option<LedgerTail>) -> (created: Result<Db, DbError>)
        ensures
            match created {
                Ok(session) => {
                    &&& session.ordinal() >= 1
                    &&& session.shared_counters() == self.shared_counters()
                },
                Err(e) => {
                    ||| e == DbError::CounterExhausted
                    ||| self.ordinal() == 0 && e == DbError::Bootstrap(StorageFault::InProgress)
                    ||| self.ordinal() == 0 && seeding_fault(tail) is Some && e
                        == DbError::Bootstrap(seeding_fault(tail)->0)
                },
            },
    {
        if is_bootstrap_due(self.session_id, self.counters.seed_state()) {
            match self.load_last_ids(tail) {
                Ok(()) => {},
                Err(e) => {
                    return Err(e);
                },
            }
        }
        match self.counters.register_session() {
            None => Err(DbError::CounterExhausted),
            Some(session_id) => Ok(Db { counters: self.counters.share(), session_id }),
        }
    }

    /// Claims the seeding and carries out what [`seeding_step`] decides:
    /// seeds the counters with the highest identifiers on record, or leaves
    /// them as they are.
    fn load_last_ids(&self, tail: Option<LedgerTail>) -> (seeded: Result<(), DbError>)
        ensures
            seeded matches Err(e) ==> {
                ||| e == DbError::Bootstrap(StorageFault::InProgress)
                ||| seeding_fault(tail) is Some && e == DbError::Bootstrap(seeding_fault(tail)->0)
            },
    {
        let claim = self.counters.claim_seeding();
        match seeding_step(claim, tail) {
            SeedingStep::Proceed => Ok(()),
            SeedingStep::Seed(marks) => {
                self.counters.seed(marks);
                Ok(())
            },
            SeedingStep::GiveUp(fault) => {
                self.counters.release_seeding();
                Err(DbError::Bootstrap(fault))
            },
            SeedingStep::Busy => Err(DbError::Bootstrap(StorageFault::InProgress)),
        }
    }

    /// Opens a read context. At a given transaction the context reads as of
    /// that transaction; at the latest it reads as of the last transaction on
    /// record, and fails if the record holds a fault.
    pub fn transact(&self, at: ReadAt) -> (opened: Result<SessionTx, DbError>)
        ensures
            match read_version(at) {
                Ok(id) => opened matches Ok(ctx) && ctx@ == (SessionTxView {
                    r_tx_id: id,
                    w_tx_id: None,
                    top_attr_id: None,
                    top_ent_id: None,
                    counters: self.shared_counters(),
                }),
                Err(fault) => opened matches Err(e) && e == DbError::Snapshot(fault),
            },
    {
        let r_tx_id = match at {
            ReadAt::Tx(id) => id,
            ReadAt::Latest(read) => match SessionTx::load_last_tx_id(read) {
                Ok(id) => id,
                Err(fault) => {
                    return Err(DbError::Snapshot(fault));
                },
            },
        };
        Ok(SessionTx::reading(r_tx_id, self.counters.share()))
    }

    /// Opens a write context under a newly issued transaction identifier
    /// that it both reads and writes as of. Fails only when the transaction
    /// counter is exhausted.
    pub fn transact_write(&self) -> (opened: Result<SessionTx, DbError>)
        ensures
            match opened {
                Ok(ctx) => {
                    &&& ctx@.w_tx_id == Some(ctx@.r_tx_id)
                    &&& ctx@.r_tx_id.0 >= 1
                    &&& ctx@.top_attr_id is None
                    &&& ctx@.top_ent_id is None
                    &&& ctx@.counters == self.shared_counters()
                },
                Err(e) => e == DbError::CounterExhausted,
            },
    {
        match self.counters.allocate_tx_id() {
            None => Err(DbError::CounterExhausted),
            Some(id) => Ok(SessionTx::writing(id, self.counters.share())),
        }
    }

    /// Resolves the most recent transaction committed at or before a time
    /// given in milliseconds. The policy of this lookup is not settled, so
    /// every call fails.
    pub fn find_tx_before_timestamp_millis(&self, ts: i64) -> (found: Result<
        Option<TxLog>,
        DbError,
    >)
        ensures
            found matches Err(e) && e == DbError::Unimplemented,
    {
        Err(DbError::Unimplemented)
    }

    /// The last attribute identifier issued, as of some instant during the
    /// call.
    pub fn last_attr_id(&self) -> AttrId {
        self.counters.last_attr_id()
    }

    /// The last entity identifier issued, as of some instant during the call.
    pub fn last_ent_id(&self) -> EntityId {
        self.counters.last_ent_id()
    }

    /// The last transaction identifier issued, as of some instant during the
    /// call.
    pub fn last_tx_id(&self) -> TxId {
        self.counters.last_tx_id()
    }

    /// The number of sessions created, as of some instant during the call.
    pub fn n_sessions(&self) -> usize {
        self.counters.n_sessions()
    }

    /// A one-line description of this handle and of the counters as they
    /// stand, for diagnostics.
    pub fn describe(&self) -> String {
        render(
            self.session_id,
            self.counters.last_attr_id().0,
            self.counters.last_ent_id().0,
            self.counters.last_tx_id().0,
            self.counters.n_sessions(),
        )
    }
}

} // verus!
