//! The order of encoded keys.
//!
//! The store keeps its rows sorted bytewise: a key sorts before another when
//! it is a proper prefix of it, or when it holds the smaller byte at the first
//! position where the two differ. Every encoding in this crate is designed
//! against that order, and the order must never change for a store that
//! already holds data.
use vstd::prelude::*;
use vstd::slice::slice_to_vec;

verus! {

/// Number of leading key bytes the store's prefix filter looks at: one tag
/// byte and the eight bytes of the identifier that follows it.
pub const DB_KEY_PREFIX_LEN: usize = 9;

/// Bits per key of the store's existence filter.
pub const BLOOM_BITS_PER_KEY: u8 = 10;

/// The order of two keys: `-1` when `a` sorts first, `1` when `b` does, `0`
/// when neither does.
pub open spec fn key_order(a: Seq<u8>, b: Seq<u8>) -> int
    decreases a.len(),
{
    if a.len() == 0 {
        if b.len() == 0 {
            0
        } else {
            -1
        }
    } else if b.len() == 0 {
        1
    } else if a[0] < b[0] {
        -1
    } else if a[0] > b[0] {
        1
    } else {
        key_order(a.skip(1), b.skip(1))
    }
}

/// The part of a key that the prefix filter sees: the first
/// `DB_KEY_PREFIX_LEN` bytes, or the whole key where it is shorter.
pub open spec fn key_prefix(key: Seq<u8>) -> Seq<u8> {
    if key.len() <= DB_KEY_PREFIX_LEN {
        key
    } else {
        key.take(DB_KEY_PREFIX_LEN as int)
    }
}

/// What follows the prefix in a key; empty where the key is no longer than
/// the prefix.
pub open spec fn key_suffix(key: Seq<u8>) -> Seq<u8> {
    if key.len() <= DB_KEY_PREFIX_LEN {
        Seq::empty()
    } else {
        key.skip(DB_KEY_PREFIX_LEN as int)
    }
}

/// Dropping a common first stretch of two keys leaves their order unchanged.
pub proof fn lemma_order_skips_common_head(a: Seq<u8>, b: Seq<u8>, n: int)
    requires
        0 <= n <= a.len(),
        n <= b.len(),
        a.take(n) == b.take(n),
    ensures
        key_order(a, b) == key_order(a.skip(n), b.skip(n)),
    decreases n,
{
    if n == 0 {
        assert(a.skip(0) =~= a);
        assert(b.skip(0) =~= b);
    } else {
        assert(a[0] == a.take(n)[0]);
        assert(b[0] == b.take(n)[0]);
        let a1 = a.skip(1);
        let b1 = b.skip(1);
        let ha = a1.take(n - 1);
        let hb = b1.take(n - 1);
        assert(ha =~= hb) by {
            assert forall|i: int| 0 <= i < n - 1 implies (#[trigger] ha[i]) == hb[i] by {
                assert(ha[i] == a.take(n)[i + 1]);
                assert(hb[i] == b.take(n)[i + 1]);
            }
        }
        lemma_order_skips_common_head(a1, b1, n - 1);
        assert(a1.skip(n - 1) =~= a.skip(n));
        assert(b1.skip(n - 1) =~= b.skip(n));
    }
}

/// The order is one of three values, and swapping the keys negates it.
pub proof fn lemma_key_order_antisymmetric(a: Seq<u8>, b: Seq<u8>)
    ensures
        -1 <= key_order(a, b) <= 1,
        key_order(b, a) == -key_order(a, b),
    decreases a.len(),
{
    if a.len() > 0 && b.len() > 0 && a[0] == b[0] {
        lemma_key_order_antisymmetric(a.skip(1), b.skip(1));
    }
}

/// Two keys sort together exactly when they are the same bytes.
pub proof fn lemma_key_order_zero_iff_equal(a: Seq<u8>, b: Seq<u8>)
    ensures
        key_order(a, b) == 0 <==> a == b,
    decreases a.len(),
{
    if a.len() > 0 && b.len() > 0 && a[0] == b[0] {
        lemma_key_order_zero_iff_equal(a.skip(1), b.skip(1));
        if a.skip(1) == b.skip(1) {
            assert(a =~= seq![a[0]] + a.skip(1));
            assert(b =~= seq![b[0]] + b.skip(1));
        }
    } else if a.len() == 0 && b.len() == 0 {
        assert(a =~= b);
    }
}

/// The order is transitive, and strictly so where either step is strict.
pub proof fn lemma_key_order_transitive(a: Seq<u8>, b: Seq<u8>, c: Seq<u8>)
    requires
        key_order(a, b) <= 0,
        key_order(b, c) <= 0,
    ensures
        key_order(a, c) <= 0,
        key_order(a, b) < 0 || key_order(b, c) < 0 ==> key_order(a, c) < 0,
    decreases a.len(),
{
    if a.len() > 0 && b.len() > 0 && c.len() > 0 && a[0] == b[0] && b[0] == c[0] {
        lemma_key_order_transitive(a.skip(1), b.skip(1), c.skip(1));
    }
}

/// Two keys with the same prefix are ordered as their suffixes are: among the
/// rows that share a prefix, the bytes after it alone decide which comes
/// first.
pub proof fn lemma_shared_prefix_ordered_by_suffix(a: Seq<u8>, b: Seq<u8>)
    requires
        key_prefix(a) == key_prefix(b),
    ensures
        key_order(a, b) == key_order(key_suffix(a), key_suffix(b)),
{
    let m = key_prefix(a).len() as int;
    assert(a.take(m) =~= key_prefix(a));
    assert(b.take(m) =~= key_prefix(b));
    assert(a.skip(m) =~= key_suffix(a));
    assert(b.skip(m) =~= key_suffix(b));
    lemma_order_skips_common_head(a, b, m);
}

/// The key that follows `key` in the order of all keys.
pub open spec fn key_successor(key: Seq<u8>) -> Seq<u8> {
    key.push(0)
}

/// A key sorts before its successor, and no key sorts between the two.
pub proof fn lemma_successor_is_next(key: Seq<u8>, other: Seq<u8>)
    ensures
        key_order(key, key_successor(key)) < 0,
        key_order(key, other) < 0 ==> key_order(key_successor(key), other) <= 0,
    decreases key.len(),
{
    let next = key_successor(key);
    if key.len() == 0 {
        assert(next.skip(1).len() == 0);
        if other.len() > 0 && other[0] == 0 {
            assert(key_order(next.skip(1), other.skip(1)) <= 0);
        }
    } else {
        assert(next[0] == key[0]);
        assert(next.skip(1) =~= key_successor(key.skip(1)));
        if other.len() > 0 {
            lemma_successor_is_next(key.skip(1), other.skip(1));
        } else {
            lemma_successor_is_next(key.skip(1), other);
        }
    }
}

/// Compares two keys as the store does.
pub fn compare_keys(a: &[u8], b: &[u8]) -> (r: i8)
    ensures
        r == key_order(a@, b@),
{
    let mut i: usize = 0;
    while i < a.len() && i < b.len()
        invariant
            i <= a.len(),
            i <= b.len(),
            a@.take(i as int) == b@.take(i as int),
        decreases a.len() - i,
    {
        if a[i] != b[i] {
            proof {
                lemma_order_skips_common_head(a@, b@, i as int);
            }
            if a[i] < b[i] {
                return -1;
            } else {
                return 1;
            }
        }
        assert(a@.take(i + 1) =~= a@.take(i as int).push(a@[i as int]));
        assert(b@.take(i + 1) =~= b@.take(i as int).push(b@[i as int]));
        i += 1;
    }
    proof {
        lemma_order_skips_common_head(a@, b@, i as int);
    }
    if i < b.len() {
        -1
    } else if i < a.len() {
        1
    } else {
        0
    }
}

/// Writes the key that follows `key` in the order of all keys.
pub fn successor_key(key: &[u8]) -> (next: Vec<u8>)
    ensures
        next@ == key_successor(key@),
{
    let mut next = slice_to_vec(key);
    next.push(0);
    next
}

} // verus!
