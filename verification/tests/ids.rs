use cozo::data::id::session_ordinal_after;
use cozo::data::id::AttrId;
use cozo::data::id::EntityId;
use cozo::data::id::TxId;
use cozo::data::id::next_u64;
use cozo::data::id::next_usize;
use cozo::runtime::counters::value_read_u64;
use cozo::runtime::counters::value_read_usize;
use cozo::runtime::counters::HighWaterMarks;
use cozo::runtime::counters::READY;
use cozo::runtime::counters::SEEDING;
use cozo::runtime::counters::UNSEEDED;
use cozo::runtime::counters::SharedCounters;
use cozo::runtime::error::StorageFault;
use cozo::data::ledger::encode_mark;
use cozo::data::ledger::ATTR_MARK_TAG;
use cozo::data::ledger::ENTITY_MARK_TAG;
use cozo::data::ledger::TX_MARK_TAG;
use cozo::runtime::store::LedgerTail;
use cozo::runtime::store::StoreStatus;
use cozo::runtime::transact::high_water_marks;
use cozo::runtime::transact::read_high_water;
use cozo::runtime::transact::SessionTx;

#[test]
fn next_identifier_is_previous_plus_one() {
    assert_eq!(TxId::after(0), Some(TxId(1)));
    assert_eq!(TxId::after(100), Some(TxId(101)));
    assert_eq!(AttrId::after(41), Some(AttrId(42)));
    assert_eq!(EntityId::after(7), Some(EntityId(8)));
    assert_eq!(TxId::after(u64::MAX - 1), Some(TxId(u64::MAX)));
}

#[test]
fn exhausted_counter_issues_nothing() {
    assert_eq!(TxId::after(u64::MAX), None);
    assert_eq!(AttrId::after(u64::MAX), None);
    assert_eq!(EntityId::after(u64::MAX), None);
    assert_eq!(session_ordinal_after(usize::MAX), None);
}

#[test]
fn session_ordinal_is_previous_count_plus_one() {
    assert_eq!(session_ordinal_after(0), Some(1));
    assert_eq!(session_ordinal_after(1), Some(2));
    assert_eq!(session_ordinal_after(usize::MAX - 1), Some(usize::MAX));
}

#[test]
fn fresh_counters_are_zero_and_unseeded() {
    let counters = SharedCounters::new();
    assert_eq!(counters.last_attr_id(), AttrId(0));
    assert_eq!(counters.last_ent_id(), EntityId(0));
    assert_eq!(counters.last_tx_id(), TxId(0));
    assert_eq!(counters.n_sessions(), 0);
    assert!(!counters.is_seeded());
}

#[test]
fn allocations_count_up_from_one() {
    let counters = SharedCounters::new();
    assert_eq!(counters.allocate_tx_id(), Some(TxId(1)));
    assert_eq!(counters.allocate_tx_id(), Some(TxId(2)));
    assert_eq!(counters.allocate_attr_id(), Some(AttrId(1)));
    assert_eq!(counters.allocate_entity_id(), Some(EntityId(1)));
    assert_eq!(counters.allocate_tx_id(), Some(TxId(3)));
    assert_eq!(counters.register_session(), Some(1));
    assert_eq!(counters.register_session(), Some(2));
    assert_eq!(counters.last_tx_id(), TxId(3));
    assert_eq!(counters.last_attr_id(), AttrId(1));
    assert_eq!(counters.last_ent_id(), EntityId(1));
    assert_eq!(counters.n_sessions(), 2);
}

#[test]
fn other_kinds_do_not_perturb_transaction_ids() {
    let counters = SharedCounters::new();
    let mut issued = Vec::new();
    for round in 0..50u64 {
        issued.push(counters.allocate_tx_id().unwrap());
        for _ in 0..(round % 3) {
            counters.allocate_attr_id().unwrap();
        }
        for _ in 0..(round % 5) {
            counters.allocate_entity_id().unwrap();
        }
    }
    for (i, id) in issued.iter().enumerate() {
        assert_eq!(*id, TxId(i as u64 + 1));
    }
}

#[test]
fn seeding_sets_all_three_counters() {
    let counters = SharedCounters::new();
    counters.seed(HighWaterMarks { attr: AttrId(41), ent: EntityId(7), tx: TxId(100) });
    assert!(counters.is_seeded());
    assert_eq!(counters.last_attr_id(), AttrId(41));
    assert_eq!(counters.last_ent_id(), EntityId(7));
    assert_eq!(counters.last_tx_id(), TxId(100));
    assert_eq!(counters.allocate_tx_id(), Some(TxId(101)));
    assert_eq!(counters.allocate_attr_id(), Some(AttrId(42)));
    assert_eq!(counters.allocate_entity_id(), Some(EntityId(8)));
}

#[test]
fn shared_handle_sees_the_same_counters() {
    let counters = SharedCounters::new();
    let other = counters.share();
    assert_eq!(counters.allocate_tx_id(), Some(TxId(1)));
    assert_eq!(other.allocate_tx_id(), Some(TxId(2)));
    assert_eq!(counters.allocate_tx_id(), Some(TxId(3)));
    assert_eq!(other.last_tx_id(), TxId(3));
    other.seed(HighWaterMarks { attr: AttrId(1), ent: EntityId(2), tx: TxId(9) });
    assert!(counters.is_seeded());
    assert_eq!(counters.last_tx_id(), TxId(9));
}

#[test]
fn exhausted_shared_counter_issues_nothing() {
    let counters = SharedCounters::new();
    counters.seed(HighWaterMarks { attr: AttrId(u64::MAX), ent: EntityId(0), tx: TxId(u64::MAX - 1) });
    assert_eq!(counters.allocate_tx_id(), Some(TxId(u64::MAX)));
    assert_eq!(counters.allocate_tx_id(), None);
    assert_eq!(counters.allocate_attr_id(), None);
}

#[test]
fn exhausted_counter_stays_at_its_ceiling() {
    let counters = SharedCounters::new();
    counters.seed(HighWaterMarks {
        attr: AttrId(u64::MAX),
        ent: EntityId(u64::MAX - 2),
        tx: TxId(u64::MAX - 1),
    });
    assert_eq!(counters.allocate_tx_id(), Some(TxId(u64::MAX)));
    for _ in 0..5 {
        assert_eq!(counters.allocate_tx_id(), None);
        assert_eq!(counters.last_tx_id(), TxId(u64::MAX));
        assert_eq!(counters.allocate_attr_id(), None);
        assert_eq!(counters.last_attr_id(), AttrId(u64::MAX));
    }
    assert_eq!(counters.allocate_entity_id(), Some(EntityId(u64::MAX - 1)));
    assert_eq!(counters.allocate_entity_id(), Some(EntityId(u64::MAX)));
    assert_eq!(counters.allocate_entity_id(), None);
    assert_eq!(counters.allocate_entity_id(), None);
    assert_eq!(counters.last_ent_id(), EntityId(u64::MAX));
}

#[test]
fn next_value_stops_at_the_ceiling() {
    assert_eq!(next_u64(0), Some(1));
    assert_eq!(next_u64(100), Some(101));
    assert_eq!(next_u64(u64::MAX - 1), Some(u64::MAX));
    assert_eq!(next_u64(u64::MAX), None);
    assert_eq!(next_usize(0), Some(1));
    assert_eq!(next_usize(usize::MAX - 1), Some(usize::MAX));
    assert_eq!(next_usize(usize::MAX), None);
}

#[test]
fn value_read_is_the_same_on_either_outcome() {
    assert_eq!(value_read_u64(Ok(7)), 7);
    assert_eq!(value_read_u64(Err(u64::MAX)), u64::MAX);
    assert_eq!(value_read_usize(Ok(0)), 0);
    assert_eq!(value_read_usize(Err(usize::MAX)), usize::MAX);
}

#[test]
fn seeding_never_lowers_a_counter() {
    let counters = SharedCounters::new();
    counters.seed(HighWaterMarks { attr: AttrId(41), ent: EntityId(7), tx: TxId(100) });
    assert_eq!(counters.allocate_tx_id(), Some(TxId(101)));
    assert_eq!(counters.allocate_tx_id(), Some(TxId(102)));
    counters.seed(HighWaterMarks { attr: AttrId(50), ent: EntityId(3), tx: TxId(100) });
    assert_eq!(counters.last_tx_id(), TxId(102));
    assert_eq!(counters.last_attr_id(), AttrId(50));
    assert_eq!(counters.last_ent_id(), EntityId(7));
    assert_eq!(counters.allocate_tx_id(), Some(TxId(103)));
}

#[test]
fn seeding_is_claimed_by_one_call_at_a_time() {
    let counters = SharedCounters::new();
    let other = counters.share();
    assert_eq!(counters.seed_state(), UNSEEDED);
    assert_eq!(counters.claim_seeding(), Ok(UNSEEDED));
    assert_eq!(other.seed_state(), SEEDING);
    assert_eq!(other.claim_seeding(), Err(SEEDING));
    assert_eq!(counters.claim_seeding(), Err(SEEDING));
    counters.release_seeding();
    assert_eq!(other.seed_state(), UNSEEDED);
    assert_eq!(other.claim_seeding(), Ok(UNSEEDED));
    other.seed(HighWaterMarks { attr: AttrId(1), ent: EntityId(2), tx: TxId(3) });
    assert_eq!(counters.seed_state(), READY);
    assert!(counters.is_seeded());
    assert_eq!(counters.claim_seeding(), Err(READY));
    assert_eq!(other.claim_seeding(), Err(READY));
    assert_eq!(counters.seed_state(), READY);
}

#[test]
fn empty_range_reads_as_zero() {
    assert_eq!(read_high_water(3, Ok(None)), Ok(0));
}

#[test]
fn last_row_gives_the_mark() {
    let key = vec![3u8, 0, 0, 0, 0, 0, 0, 0, 100];
    assert_eq!(read_high_water(3, Ok(Some(key))), Ok(100));
}

#[test]
fn foreign_last_row_is_a_fault() {
    assert_eq!(read_high_water(3, Ok(Some(vec![3u8, 1]))), Err(StorageFault::MalformedKey));
    let other = vec![1u8, 0, 0, 0, 0, 0, 0, 0, 100];
    assert_eq!(read_high_water(3, Ok(Some(other))), Err(StorageFault::MalformedKey));
    assert_eq!(read_high_water(3, Ok(Some(vec![]))), Err(StorageFault::MalformedKey));
}

#[test]
fn engine_failure_is_passed_on() {
    let status = StoreStatus { code: 5, message: String::from("IO error") };
    assert_eq!(
        read_high_water(3, Err(StoreStatus { code: 5, message: String::from("IO error") })),
        Err(StorageFault::Engine(status))
    );
}

#[test]
fn typed_helpers_read_their_own_ledger() {
    let tx = encode_mark(TX_MARK_TAG, 100);
    let attr = encode_mark(ATTR_MARK_TAG, 41);
    let ent = encode_mark(ENTITY_MARK_TAG, 7);
    assert_eq!(SessionTx::load_last_tx_id(Ok(Some(tx.clone()))), Ok(TxId(100)));
    assert_eq!(SessionTx::load_last_attr_id(Ok(Some(attr.clone()))), Ok(AttrId(41)));
    assert_eq!(SessionTx::load_last_entity_id(Ok(Some(ent.clone()))), Ok(EntityId(7)));
    assert_eq!(SessionTx::load_last_tx_id(Ok(None)), Ok(TxId(0)));
    assert_eq!(SessionTx::load_last_attr_id(Ok(None)), Ok(AttrId(0)));
    assert_eq!(SessionTx::load_last_entity_id(Ok(None)), Ok(EntityId(0)));
    assert_eq!(SessionTx::load_last_tx_id(Ok(Some(attr))), Err(StorageFault::MalformedKey));
    assert_eq!(SessionTx::load_last_attr_id(Ok(Some(ent))), Err(StorageFault::MalformedKey));
    assert_eq!(SessionTx::load_last_entity_id(Ok(Some(tx))), Err(StorageFault::MalformedKey));
}

#[test]
fn marks_are_read_in_the_order_transaction_attribute_entity() {
    let good = || Ok(Some(encode_mark(TX_MARK_TAG, 100)));
    let failed = |code: u32| Err(StoreStatus { code, message: String::new() });
    assert_eq!(
        high_water_marks(LedgerTail {
            tx: good(),
            attr: Ok(Some(encode_mark(ATTR_MARK_TAG, 41))),
            ent: Ok(Some(encode_mark(ENTITY_MARK_TAG, 7))),
        }),
        Ok(HighWaterMarks { attr: AttrId(41), ent: EntityId(7), tx: TxId(100) })
    );
    assert_eq!(
        high_water_marks(LedgerTail { tx: Ok(None), attr: Ok(None), ent: Ok(None) }),
        Ok(HighWaterMarks { attr: AttrId(0), ent: EntityId(0), tx: TxId(0) })
    );
    assert_eq!(
        high_water_marks(LedgerTail { tx: failed(1), attr: failed(2), ent: failed(3) }),
        Err(StorageFault::Engine(StoreStatus { code: 1, message: String::new() }))
    );
    assert_eq!(
        high_water_marks(LedgerTail { tx: good(), attr: failed(2), ent: Ok(Some(vec![9])) }),
        Err(StorageFault::Engine(StoreStatus { code: 2, message: String::new() }))
    );
    assert_eq!(
        high_water_marks(LedgerTail { tx: good(), attr: Ok(None), ent: Ok(Some(vec![9])) }),
        Err(StorageFault::MalformedKey)
    );
}
