//! What passes between this crate and the storage engine.
//!
//! This crate never touches the engine. It says what the engine is to be
//! opened with, which ranges are to be read and which rows are to be staged,
//! and it takes the engine's answers as plain values. Whoever owns the engine
//! does the reading and the writing.
use crate::data::compare::BLOOM_BITS_PER_KEY;
use crate::data::compare::DB_KEY_PREFIX_LEN;
use vstd::prelude::*;

verus! {

/// What the engine reported with a failure.
#[derive(Debug, PartialEq, Eq)]
pub struct StoreStatus {
    /// The engine's status code.
    pub code: u32,
    /// The engine's message, empty where it gave none.
    pub message: String,
}

/// Name under which the key order is registered with the store. A store
/// remembers the name it was created with and does not open under another.
pub const KEY_ORDER_NAME: &'static str = "cozo_rusty_cmp";

/// The key order and the filters a store must be opened with. The order
/// itself is [`crate::data::compare::compare_keys`]; a store opened with
/// other settings does not keep the rows of this crate where its scans look
/// for them.
#[derive(Clone, Copy, Debug, PartialEq, Eq)]
pub struct StoreOptions {
    /// Whether the store keeps an existence filter.
    pub use_bloom_filter: bool,
    /// Bits per key of the existence filter.
    pub bloom_bits_per_key: u8,
    /// Whether the existence filter covers whole keys.
    pub bloom_whole_key_filtering: bool,
    /// Whether the store extracts a capped prefix from each key.
    pub use_capped_prefix_extractor: bool,
    /// Length of that prefix.
    pub capped_prefix_len: usize,
    /// Name under which the key order is registered.
    pub key_order_name: &'static str,
    /// Whether keys of different bytes can sort together. They cannot: two
    /// keys sort together exactly when they are the same bytes.
    pub different_bytes_can_be_equal: bool,
}

/// The options of every store of this crate.
pub open spec fn required_options() -> StoreOptions {
    StoreOptions {
        use_bloom_filter: true,
        bloom_bits_per_key: BLOOM_BITS_PER_KEY,
        bloom_whole_key_filtering: true,
        use_capped_prefix_extractor: true,
        capped_prefix_len: DB_KEY_PREFIX_LEN,
        key_order_name: KEY_ORDER_NAME,
        different_bytes_can_be_equal: false,
    }
}

/// The options a store must be opened with. They are constants: every start
/// opens the store with the same order and the same filters.
pub fn store_options() -> (options: StoreOptions)
    ensures
        options == required_options(),
{
    StoreOptions {
        use_bloom_filter: true,
        bloom_bits_per_key: BLOOM_BITS_PER_KEY,
        bloom_whole_key_filtering: true,
        use_capped_prefix_extractor: true,
        capped_prefix_len: DB_KEY_PREFIX_LEN,
        key_order_name: KEY_ORDER_NAME,
        different_bytes_can_be_equal: false,
    }
}

/// What the store answered when it was asked, for each kind of identifier,
/// for the last key of the kind's ledger range: the key, `None` for an empty
/// range, or the engine's failure.
#[derive(Debug, PartialEq, Eq)]
pub struct LedgerTail {
    pub tx: Result<Option<Vec<u8>>, StoreStatus>,
    pub attr: Result<Option<Vec<u8>>, StoreStatus>,
    pub ent: Result<Option<Vec<u8>>, StoreStatus>,
}

} // verus!
