//! The unit of work.
//!
//! A context holds the transaction identifier that fixes what it reads and,
//! on a write context, the freshly issued identifier that tags what it
//! writes. Both are settled when the context is opened and no operation
//! changes them afterwards. A context holds no durable state of its own: it
//! says which rows its commit has to stage, and the owner of the storage
//! engine stages them and commits, in one atomic write of the engine.
use crate::data::id::AttrId;
use crate::data::id::EntityId;
use crate::data::id::TxId;
use crate::data::ledger::ATTR_MARK_TAG;
use crate::data::ledger::ENTITY_MARK_TAG;
use crate::data::ledger::TX_MARK_TAG;
use crate::data::ledger::decode_mark;
use crate::data::ledger::encode_mark;
use crate::data::ledger::mark_id;
use crate::data::ledger::mark_key;
use crate::runtime::counters::HighWaterMarks;
use crate::runtime::counters::SharedCounters;
use crate::runtime::error::DbError;
use crate::runtime::error::StorageFault;
use crate::runtime::store::LedgerTail;
use crate::runtime::store::StoreStatus;
use vstd::prelude::*;

verus! {

/// An entry of the transaction log.
#[derive(Clone, Copy, Debug, PartialEq, Eq, Structural)]
pub struct TxLog {
    pub id: TxId,
    pub timestamp_millis: i64,
}

/// What the store's answer about the last key of a ledger range says about
/// the kind tagged `tag`: zero where the range is empty, the identifier the
/// key records where it is the key of a high-water row, and a fault where it
/// is any other key or where the engine failed.
pub open spec fn high_water_of(tag: u8, read: Result<Option<Vec<u8>>, StoreStatus>) -> Result<
    u64,
    StorageFault,
> {
    match read {
        Err(status) => Err(StorageFault::Engine(status)),
        Ok(None) => Ok(0),
        Ok(Some(key)) => match mark_id(tag, key@) {
            Some(id) => Ok(id),
            None => Err(StorageFault::MalformedKey),
        },
    }
}

/// Reads the high-water mark of the kind tagged `tag` off the store's answer
/// about the last key of the kind's ledger range.
pub fn read_high_water(tag: u8, read: Result<Option<Vec<u8>>, StoreStatus>) -> (mark: Result<
    u64,
    StorageFault,
>)
    ensures
        mark == high_water_of(tag, read),
{
    match read {
        Err(status) => Err(StorageFault::Engine(status)),
        Ok(None) => Ok(0),
        Ok(Some(key)) => match decode_mark(tag, key.as_slice()) {
            Some(id) => Ok(id),
            None => Err(StorageFault::MalformedKey),
        },
    }
}

/// The highest transaction identifier on record, by the store's answer about
/// the last key of the transaction ledger.
pub open spec fn last_tx_id_of(read: Result<Option<Vec<u8>>, StoreStatus>) -> Result<
    TxId,
    StorageFault,
> {
    match high_water_of(TX_MARK_TAG, read) {
        Ok(id) => Ok(TxId(id)),
        Err(fault) => Err(fault),
    }
}

/// The highest attribute identifier on record, by the store's answer about
/// the last key of the attribute ledger.
pub open spec fn last_attr_id_of(read: Result<Option<Vec<u8>>, StoreStatus>) -> Result<
    AttrId,
    StorageFault,
> {
    match high_water_of(ATTR_MARK_TAG, read) {
        Ok(id) => Ok(AttrId(id)),
        Err(fault) => Err(fault),
    }
}

/// The highest entity identifier on record, by the store's answer about the
/// last key of the entity ledger.
pub open spec fn last_entity_id_of(read: Result<Option<Vec<u8>>, StoreStatus>) -> Result<
    EntityId,
    StorageFault,
> {
    match high_water_of(ENTITY_MARK_TAG, read) {
        Ok(id) => Ok(EntityId(id)),
        Err(fault) => Err(fault),
    }
}

/// The highest identifiers on record, by the store's answers about the last
/// keys of the three ledger ranges. The answers are read in the order
/// transaction, attribute, entity, and the first fault is the fault of the
/// whole.
pub open spec fn marks_of(tail: LedgerTail) -> Result<HighWaterMarks, StorageFault> {
    match last_tx_id_of(tail.tx) {
        Err(fault) => Err(fault),
        Ok(tx) => match last_attr_id_of(tail.attr) {
            Err(fault) => Err(fault),
            Ok(attr) => match last_entity_id_of(tail.ent) {
                Err(fault) => Err(fault),
                Ok(ent) => Ok(HighWaterMarks { attr, ent, tx }),
            },
        },
    }
}

/// The version a new read context is to read at.
#[derive(Debug, PartialEq, Eq)]
pub enum ReadAt {
    /// A given transaction. The store is not consulted.
    Tx(TxId),
    /// The last transaction on record, by the store's answer about the last
    /// key of the transaction ledger.
    Latest(Result<Option<Vec<u8>>, StoreStatus>),
}

/// The transaction identifier that a read context opened at `at` reads as
/// of, or the fault that keeps it from opening.
pub open spec fn read_version(at: ReadAt) -> Result<TxId, StorageFault> {
    match at {
        ReadAt::Tx(id) => Ok(id),
        ReadAt::Latest(read) => last_tx_id_of(read),
    }
}

/// What a context holds.
pub struct SessionTxView {
    /// The transaction identifier that fixes what the context reads.
    pub r_tx_id: TxId,
    /// The identifier that tags what the context writes; `None` on a read
    /// context.
    pub w_tx_id: Option<TxId>,
    /// The highest attribute identifier issued through this context.
    pub top_attr_id: Option<AttrId>,
    /// The highest entity identifier issued through this context.
    pub top_ent_id: Option<EntityId>,
    /// The counters of the database the context belongs to.
    pub counters: SharedCounters,
}

impl SessionTxView {
    /// A write context reads at its own identifier, and only a write context
    /// has issued identifiers to record.
    pub open spec fn well_formed(self) -> bool {
        &&& self.w_tx_id matches Some(w) ==> w == self.r_tx_id
        &&& self.w_tx_id is None ==> self.top_attr_id is None && self.top_ent_id is None
    }

    /// The keys of the high-water rows that the context writes when it
    /// commits: none on a read context; on a write context the row of its
    /// own transaction identifier, then the row of the highest attribute
    /// identifier and the row of the highest entity identifier it issued,
    /// where it issued any.
    pub open spec fn marks_to_persist(self) -> Seq<Seq<u8>> {
        match self.w_tx_id {
            None => Seq::empty(),
            Some(w) => seq![mark_key(TX_MARK_TAG, w.0)] + (match self.top_attr_id {
                Some(a) => seq![mark_key(ATTR_MARK_TAG, a.0)],
                None => Seq::empty(),
            }) + (match self.top_ent_id {
                Some(e) => seq![mark_key(ENTITY_MARK_TAG, e.0)],
                None => Seq::empty(),
            }),
        }
    }
}

/// The highest attribute identifier issued through a context once `issued`
/// has been issued through it, `top` having been the highest before.
pub open spec fn raised_attr(top: Option<AttrId>, issued: AttrId) -> AttrId {
    match top {
        Some(t) if t.0 >= issued.0 => t,
        _ => issued,
    }
}

/// The highest entity identifier issued through a context once `issued` has
/// been issued through it, `top` having been the highest before.
pub open spec fn raised_entity(top: Option<EntityId>, issued: EntityId) -> EntityId {
    match top {
        Some(t) if t.0 >= issued.0 => t,
        _ => issued,
    }
}

/// The highest identifiers issued through a write context.
struct Issued {
    top_attr_id: Option<AttrId>,
    top_ent_id: Option<EntityId>,
}

/// A unit of work on the store.
pub struct SessionTx {
    r_tx_id: TxId,
    /// Present on a write context, which writes as of `r_tx_id`.
    issued: Option<Issued>,
    counters: SharedCounters,
}

impl View for SessionTx {
    type V = SessionTxView;

    closed spec fn view(&self) -> SessionTxView {
        SessionTxView {
            r_tx_id: self.r_tx_id,
            w_tx_id: match self.issued {
                Some(_) => Some(self.r_tx_id),
                None => None,
            },
            top_attr_id: match self.issued {
                Some(issued) => issued.top_attr_id,
                None => None,
            },
            top_ent_id: match self.issued {
                Some(issued) => issued.top_ent_id,
                None => None,
            },
            counters: self.counters,
        }
    }
}

impl SessionTx {
    /// Every context is well formed.
    pub proof fn lemma_well_formed(self)
        ensures
            self@.well_formed(),
    {
    }

    /// A read context that reads as of `r_tx_id`.
    pub(crate) fn reading(r_tx_id: TxId, counters: SharedCounters) -> (ctx: SessionTx)
        ensures
            ctx@ == (SessionTxView {
                r_tx_id,
                w_tx_id: None,
                top_attr_id: None,
                top_ent_id: None,
                counters,
            }),
    {
        SessionTx { r_tx_id, issued: None, counters }
    }

    /// A write context that writes, and reads, as of `w_tx_id`.
    pub(crate) fn writing(w_tx_id: TxId, counters: SharedCounters) -> (ctx: SessionTx)
        ensures
            ctx@ == (SessionTxView {
                r_tx_id: w_tx_id,
                w_tx_id: Some(w_tx_id),
                top_attr_id: None,
                top_ent_id: None,
                counters,
            }),
    {
        SessionTx {
            r_tx_id: w_tx_id,
            issued: Some(Issued { top_attr_id: None, top_ent_id: None }),
            counters,
        }
    }

    /// The transaction identifier that fixes what the context reads.
    pub fn r_tx_id(&self) -> (id: TxId)
        ensures
            id == self@.r_tx_id,
    {
        self.r_tx_id
    }

    /// The identifier that tags what the context writes; `None` on a read
    /// context.
    pub fn w_tx_id(&self) -> (id: Option<TxId>)
        ensures
            id == self@.w_tx_id,
    {
        match self.issued {
            Some(_) => Some(self.r_tx_id),
            None => None,
        }
    }

    /// Issues a new attribute identifier through this context and notes it
    /// for the commit. Only a write context can issue one.
    pub fn allocate_attr_id(&mut self) -> (issued: Result<AttrId, DbError>)
        ensures
            final(self)@.r_tx_id == old(self)@.r_tx_id,
            issued matches Err(DbError::ReadOnly) <==> old(self)@.w_tx_id is None,
            match issued {
                Ok(id) => id.0 >= 1 && final(self)@ == (SessionTxView {
                    top_attr_id: Some(raised_attr(old(self)@.top_attr_id, id)),
                    ..old(self)@
                }),
                Err(e) => final(self)@ == old(self)@ && (e matches DbError::ReadOnly
                    || e matches DbError::CounterExhausted),
            },
    {
        let top_ent_id = match &self.issued {
            None => {
                return Err(DbError::ReadOnly);
            },
            Some(issued) => issued.top_ent_id,
        };
        let top_attr_id = match &self.issued {
            None => None,
            Some(issued) => issued.top_attr_id,
        };
        match self.counters.allocate_attr_id() {
            None => Err(DbError::CounterExhausted),
            Some(id) => {
                let top = match top_attr_id {
                    Some(a) => if a.0 >= id.0 {
                        a
                    } else {
                        id
                    },
                    None => id,
                };
                self.issued = Some(Issued { top_attr_id: Some(top), top_ent_id });
                Ok(id)
            },
        }
    }

    /// Issues a new entity identifier through this context and notes it for
    /// the commit. Only a write context can issue one.
    pub fn allocate_entity_id(&mut self) -> (issued: Result<EntityId, DbError>)
        ensures
            final(self)@.r_tx_id == old(self)@.r_tx_id,
            issued matches Err(DbError::ReadOnly) <==> old(self)@.w_tx_id is None,
            match issued {
                Ok(id) => id.0 >= 1 && final(self)@ == (SessionTxView {
                    top_ent_id: Some(raised_entity(old(self)@.top_ent_id, id)),
                    ..old(self)@
                }),
                Err(e) => final(self)@ == old(self)@ && (e matches DbError::ReadOnly
                    || e matches DbError::CounterExhausted),
            },
    {
        let top_attr_id = match &self.issued {
            None => {
                return Err(DbError::ReadOnly);
            },
            Some(issued) => issued.top_attr_id,
        };
        let top_ent_id = match &self.issued {
            None => None,
            Some(issued) => issued.top_ent_id,
        };
        match self.counters.allocate_entity_id() {
            None => Err(DbError::CounterExhausted),
            Some(id) => {
                let top = match top_ent_id {
                    Some(e) => if e.0 >= id.0 {
                        e
                    } else {
                        id
                    },
                    None => id,
                };
                self.issued = Some(Issued { top_attr_id, top_ent_id: Some(top) });
                Ok(id)
            },
        }
    }

    /// The keys of the high-water rows that the commit of this context has
    /// to stage, with empty values, beside everything else the context
    /// wrote, so that they become durable in the same atomic write.
    pub fn pending_marks(&self) -> (keys: Vec<Vec<u8>>)
        ensures
            keys@.len() == self@.marks_to_persist().len(),
            forall|i: int|
                0 <= i < keys@.len() ==> (#[trigger] keys@[i])@ == self@.marks_to_persist()[i],
    {
        let mut keys: Vec<Vec<u8>> = Vec::new();
        if let Some(issued) = &self.issued {
            keys.push(encode_mark(TX_MARK_TAG, self.r_tx_id.0));
            if let Some(a) = issued.top_attr_id {
                keys.push(encode_mark(ATTR_MARK_TAG, a.0));
            }
            if let Some(e) = issued.top_ent_id {
                keys.push(encode_mark(ENTITY_MARK_TAG, e.0));
            }
        }
        keys
    }

    /// The highest transaction identifier the store records, zero on a store
    /// that records none, by the store's answer about the last key of the
    /// transaction ledger. Used to resolve "now" for a new read context and
    /// to seed the counters.
    pub fn load_last_tx_id(read: Result<Option<Vec<u8>>, StoreStatus>) -> (id: Result<
        TxId,
        StorageFault,
    >)
        ensures
            id == last_tx_id_of(read),
    {
        match read_high_water(TX_MARK_TAG, read) {
            Ok(id) => Ok(TxId(id)),
            Err(fault) => Err(fault),
        }
    }

    /// The highest attribute identifier the store records, zero on a store
    /// that records none, by the store's answer about the last key of the
    /// attribute ledger. Used to seed the counters.
    pub fn load_last_attr_id(read: Result<Option<Vec<u8>>, StoreStatus>) -> (id: Result<
        AttrId,
        StorageFault,
    >)
        ensures
            id == last_attr_id_of(read),
    {
        match read_high_water(ATTR_MARK_TAG, read) {
            Ok(id) => Ok(AttrId(id)),
            Err(fault) => Err(fault),
        }
    }

    /// The highest entity identifier the store records, zero on a store that
    /// records none, by the store's answer about the last key of the entity
    /// ledger. Used to seed the counters.
    pub fn load_last_entity_id(read: Result<Option<Vec<u8>>, StoreStatus>) -> (id: Result<
        EntityId,
        StorageFault,
    >)
        ensures
            id == last_entity_id_of(read),
    {
        match read_high_water(ENTITY_MARK_TAG, read) {
            Ok(id) => Ok(EntityId(id)),
            Err(fault) => Err(fault),
        }
    }
}

/// Reads the highest identifiers on record off the store's answers about the
/// last keys of the three ledger ranges.
pub fn high_water_marks(tail: LedgerTail) -> (marks: Result<HighWaterMarks, StorageFault>)
    ensures
        marks == marks_of(tail),
{
    let tx = match SessionTx::load_last_tx_id(tail.tx) {
        Ok(id) => id,
        Err(fault) => {
            return Err(fault);
        },
    };
    let attr = match SessionTx::load_last_attr_id(tail.attr) {
        Ok(id) => id,
        Err(fault) => {
            return Err(fault);
        },
    };
    let ent = match SessionTx::load_last_entity_id(tail.ent) {
        Ok(id) => id,
        Err(fault) => {
            return Err(fault);
        },
    };
    Ok(HighWaterMarks { attr, ent, tx })
}

} // verus!
