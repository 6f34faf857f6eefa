//! The persisted record of the highest identifiers.
//!
//! For each kind of identifier the store holds one row per high-water mark
//! that a committed write transaction reached. The key of such a row is a tag
//! byte for the kind followed by the identifier as eight bytes, most
//! significant first; the value is empty. In the store's order the rows of
//! one kind lie together and ascend with the identifier, so the highest
//! identifier ever recorded is the last row of the kind's range.
use crate::data::compare::key_order;
use vstd::prelude::*;

verus! {

/// Tag of the rows that record attribute identifiers.
pub const ATTR_MARK_TAG: u8 = 1;

/// Tag of the rows that record entity identifiers.
pub const ENTITY_MARK_TAG: u8 = 2;

/// Tag of the rows that record transaction identifiers.
pub const TX_MARK_TAG: u8 = 3;

/// Length of the key of a high-water row.
pub const MARK_KEY_LEN: usize = 9;

/// The `n` low-order base-256 digits of `v`, most significant first.
pub open spec fn be_bytes(v: int, n: nat) -> Seq<u8>
    decreases n,
{
    if n == 0 {
        Seq::empty()
    } else {
        be_bytes(v / 256, (n - 1) as nat).push((v % 256) as u8)
    }
}

/// The number whose base-256 digits, most significant first, are `bytes`.
pub open spec fn be_value(bytes: Seq<u8>) -> int
    decreases bytes.len(),
{
    if bytes.len() == 0 {
        0
    } else {
        be_value(bytes.drop_last()) * 256 + bytes.last()
    }
}

/// 256 to the power `n`.
pub open spec fn scale(n: nat) -> int
    decreases n,
{
    if n == 0 {
        1
    } else {
        256 * scale((n - 1) as nat)
    }
}

/// The key of the row that records `id` as a high-water mark of the kind
/// tagged `tag`.
pub open spec fn mark_key(tag: u8, id: u64) -> Seq<u8> {
    seq![tag] + be_bytes(id as int, 8)
}

/// The identifier that a key records for the kind tagged `tag`, if the key is
/// the key of such a row.
pub open spec fn mark_id(tag: u8, key: Seq<u8>) -> Option<u64> {
    if key.len() == MARK_KEY_LEN && key[0] == tag {
        Some(be_value(key.skip(1)) as u64)
    } else {
        None
    }
}

/// The least key of the range that holds the rows tagged `tag`.
pub open spec fn mark_range_start(tag: u8) -> Seq<u8> {
    seq![tag]
}

/// The least key above the range that holds the rows tagged `tag`.
pub open spec fn mark_range_end(tag: u8) -> Seq<u8> {
    seq![(tag + 1) as u8]
}

/// `-1`, `0` or `1` as `d` is negative, zero or positive.
pub open spec fn sign(d: int) -> int {
    if d < 0 {
        -1
    } else if d > 0 {
        1
    } else {
        0
    }
}

/// Writing with `n` digits gives `n` bytes.
pub proof fn lemma_be_bytes_len(v: int, n: nat)
    ensures
        be_bytes(v, n).len() == n,
    decreases n,
{
    if n > 0 {
        lemma_be_bytes_len(v / 256, (n - 1) as nat);
    }
}

/// A number written with `n` digits is below 256 to the power `n`.
pub proof fn lemma_be_value_bound(bytes: Seq<u8>)
    ensures
        0 <= be_value(bytes) < scale(bytes.len()),
    decreases bytes.len(),
{
    if bytes.len() > 0 {
        lemma_be_value_bound(bytes.drop_last());
    }
}

/// Writing a number below 256 to the power `n` with `n` digits and reading
/// the digits back gives the number.
pub proof fn lemma_be_value_of_bytes(v: int, n: nat)
    requires
        0 <= v < scale(n),
    ensures
        be_value(be_bytes(v, n)) == v,
    decreases n,
{
    lemma_be_bytes_len(v, n);
    if n > 0 {
        let rest = be_bytes(v / 256, (n - 1) as nat);
        assert(be_bytes(v, n).drop_last() =~= rest);
        lemma_be_value_of_bytes(v / 256, (n - 1) as nat);
    }
}

/// Reading digits and writing the number back with as many digits gives the
/// digits.
pub proof fn lemma_be_bytes_of_value(bytes: Seq<u8>)
    ensures
        be_bytes(be_value(bytes), bytes.len()) == bytes,
    decreases bytes.len(),
{
    if bytes.len() > 0 {
        let front = bytes.drop_last();
        lemma_be_value_bound(front);
        lemma_be_bytes_of_value(front);
        assert(be_value(bytes) / 256 == be_value(front));
        assert(be_value(bytes) % 256 == bytes.last());
        assert(front.push(bytes.last()) =~= bytes);
    } else {
        assert(be_bytes(0, 0) =~= bytes);
    }
}

/// Eight digits hold exactly the 64-bit numbers.
pub proof fn lemma_scale_eight()
    ensures
        scale(8) == 0x1_0000_0000_0000_0000,
        forall|n: nat| n < 8 ==> 256 * #[trigger] scale(n) <= scale(8),
{
    reveal_with_fuel(scale, 9);
    assert forall|n: nat| n < 8 implies 256 * #[trigger] scale(n) <= scale(8) by {
        if n == 0 {
        } else if n == 1 {
        } else if n == 2 {
        } else if n == 3 {
        } else if n == 4 {
        } else if n == 5 {
        } else if n == 6 {
        } else {
            assert(n == 7);
        }
    }
}

/// Reading back the key written for an identifier gives the identifier.
pub proof fn lemma_mark_round_trip(tag: u8, id: u64)
    ensures
        mark_id(tag, mark_key(tag, id)) == Some(id),
{
    lemma_scale_eight();
    lemma_be_bytes_len(id as int, 8);
    lemma_be_value_of_bytes(id as int, 8);
    assert(mark_key(tag, id).skip(1) =~= be_bytes(id as int, 8));
}

/// A key that records an identifier is the key written for that identifier:
/// no two keys record the same identifier of one kind.
pub proof fn lemma_mark_key_canonical(tag: u8, key: Seq<u8>)
    requires
        mark_id(tag, key) is Some,
    ensures
        key == mark_key(tag, mark_id(tag, key)->0),
{
    let digits = key.skip(1);
    lemma_scale_eight();
    lemma_be_value_bound(digits);
    lemma_be_bytes_of_value(digits);
    assert(key =~= seq![tag] + digits);
}

/// Two keys of one length with a byte appended to each are ordered by what
/// they were before, and by the appended bytes where those were equal.
pub proof fn lemma_order_with_byte_appended(a: Seq<u8>, x: u8, b: Seq<u8>, y: u8)
    requires
        a.len() == b.len(),
    ensures
        key_order(a.push(x), b.push(y)) == if key_order(a, b) != 0 {
            key_order(a, b)
        } else {
            sign(x - y)
        },
    decreases a.len(),
{
    let ax = a.push(x);
    let by = b.push(y);
    if a.len() == 0 {
        assert(key_order(ax.skip(1), by.skip(1)) == 0);
    } else {
        assert(ax[0] == a[0] && by[0] == b[0]);
        assert(ax.skip(1) =~= a.skip(1).push(x));
        assert(by.skip(1) =~= b.skip(1).push(y));
        lemma_order_with_byte_appended(a.skip(1), x, b.skip(1), y);
    }
}

/// Keys of one length are ordered as the numbers they spell.
pub proof fn lemma_order_of_equal_length(a: Seq<u8>, b: Seq<u8>)
    requires
        a.len() == b.len(),
    ensures
        key_order(a, b) == sign(be_value(a) - be_value(b)),
    decreases a.len(),
{
    if a.len() > 0 {
        let front_a = a.drop_last();
        let front_b = b.drop_last();
        lemma_order_of_equal_length(front_a, front_b);
        lemma_order_with_byte_appended(front_a, a.last(), front_b, b.last());
        assert(front_a.push(a.last()) =~= a);
        assert(front_b.push(b.last()) =~= b);
    }
}

/// The rows of one kind ascend with the identifier they record: the row of
/// the highest identifier is the last of them.
pub proof fn lemma_marks_ordered_by_id(tag: u8, a: u64, b: u64)
    ensures
        key_order(mark_key(tag, a), mark_key(tag, b)) == sign(a - b),
{
    let da = be_bytes(a as int, 8);
    let db = be_bytes(b as int, 8);
    lemma_scale_eight();
    lemma_be_bytes_len(a as int, 8);
    lemma_be_bytes_len(b as int, 8);
    lemma_be_value_of_bytes(a as int, 8);
    lemma_be_value_of_bytes(b as int, 8);
    lemma_order_of_equal_length(da, db);
    assert(mark_key(tag, a).skip(1) =~= da);
    assert(mark_key(tag, b).skip(1) =~= db);
}

/// Every row of a kind lies within the kind's range.
pub proof fn lemma_mark_within_range(tag: u8, id: u64)
    requires
        tag < 255,
    ensures
        key_order(mark_range_start(tag), mark_key(tag, id)) < 0,
        key_order(mark_key(tag, id), mark_range_end(tag)) < 0,
{
    reveal_with_fuel(key_order, 2);
    lemma_be_bytes_len(id as int, 8);
    let key = mark_key(tag, id);
    assert(key[0] == tag);
    assert(mark_range_start(tag).skip(1).len() == 0);
    assert(key.skip(1).len() == 8);
}

/// A key within the range of a kind carries the kind's tag: the ranges of
/// different kinds share no key.
pub proof fn lemma_range_holds_tagged_keys(tag: u8, key: Seq<u8>)
    requires
        tag < 255,
        key_order(mark_range_start(tag), key) <= 0,
        key_order(key, mark_range_end(tag)) < 0,
    ensures
        key.len() > 0,
        key[0] == tag,
{
    reveal_with_fuel(key_order, 2);
    assert(mark_range_start(tag)[0] == tag);
    assert(mark_range_end(tag)[0] == tag + 1);
    if key.len() > 0 && key[0] == tag + 1 {
        assert(mark_range_end(tag).skip(1).len() == 0);
    }
}

/// The least key of the range that holds the rows tagged `tag`.
pub fn range_start(tag: u8) -> (bound: Vec<u8>)
    ensures
        bound@ == mark_range_start(tag),
{
    vec![tag]
}

/// The least key above the range that holds the rows tagged `tag`.
pub fn range_end(tag: u8) -> (bound: Vec<u8>)
    requires
        tag < 255,
    ensures
        bound@ == mark_range_end(tag),
{
    vec![tag + 1]
}

/// Writes the key of the row that records `id` for the kind tagged `tag`.
pub fn encode_mark(tag: u8, id: u64) -> (key: Vec<u8>)
    ensures
        key@ == mark_key(tag, id),
{
    let mut key: Vec<u8> = vec![tag, 0, 0, 0, 0, 0, 0, 0, 0];
    let mut rest: u64 = id;
    let mut filled: usize = 0;
    while filled < 8
        invariant
            filled <= 8,
            key.len() == 9,
            key@[0] == tag,
            be_bytes(id as int, 8) == be_bytes(rest as int, (8 - filled) as nat) + key@.skip(
                9 - filled,
            ),
        decreases 8 - filled,
    {
        let ghost before = key@;
        let digit: u8 = (rest % 256) as u8;
        key.set(8 - filled, digit);
        proof {
            let m = (8 - filled) as nat;
            assert(key@.skip(8 - filled) =~= seq![digit] + before.skip(9 - filled));
            assert(be_bytes(rest as int, m) + before.skip(9 - filled) =~= be_bytes(
                rest as int / 256,
                (m - 1) as nat,
            ) + key@.skip(8 - filled));
        }
        rest = rest / 256;
        filled += 1;
    }
    proof {
        assert(be_bytes(rest as int, 0) + key@.skip(1) =~= key@.skip(1));
        assert(key@ =~= seq![tag] + key@.skip(1));
    }
    key
}

/// Reads the identifier that `key` records for the kind tagged `tag`; `None`
/// where `key` is not the key of such a row.
pub fn decode_mark(tag: u8, key: &[u8]) -> (id: Option<u64>)
    ensures
        id == mark_id(tag, key@),
{
    if key.len() != MARK_KEY_LEN || key[0] != tag {
        return None;
    }
    let mut value: u64 = 0;
    let mut i: usize = 1;
    while i < 9
        invariant
            1 <= i <= 9,
            key.len() == 9,
            value == be_value(key@.subrange(1, i as int)),
        decreases 9 - i,
    {
        proof {
            let seen = key@.subrange(1, i as int);
            lemma_be_value_bound(seen);
            lemma_scale_eight();
            assert(256 * scale((i - 1) as nat) <= scale(8));
            assert(key@.subrange(1, i + 1).drop_last() =~= seen);
        }
        value = value * 256 + key[i] as u64;
        i += 1;
    }
    assert(key@.subrange(1, 9) =~= key@.skip(1));
    Some(value)
}

} // verus!
