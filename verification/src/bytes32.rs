//! Spec-level vocabulary for 32-byte values, and verified byte-array
//! comparison used by every digest kind.

use vstd::prelude::*;

verus! {

/// The sequence of 32 copies of one byte value.
pub open spec fn repeated(v: u8) -> Seq<u8> {
    Seq::new(32, |i: int| v)
}

/// Byte-wise lexicographic "less than" over two equal-length byte sequences:
/// there is a first position where they differ, and `a` holds the smaller
/// byte there.
pub open spec fn lex_lt(a: Seq<u8>, b: Seq<u8>) -> bool {
    exists|i: int|
        0 <= i < a.len() && i < b.len() && (forall|j: int| 0 <= j < i ==> a[j] == b[j]) && a[i]
            < b[i]
}

/// The ordering of two equal-length byte sequences under byte-wise
/// lexicographic comparison.
pub open spec fn lex_cmp(a: Seq<u8>, b: Seq<u8>) -> core::cmp::Ordering {
    if lex_lt(a, b) {
        core::cmp::Ordering::Less
    } else if lex_lt(b, a) {
        core::cmp::Ordering::Greater
    } else {
        core::cmp::Ordering::Equal
    }
}

/// Compare two 32-byte arrays for equality, byte by byte.
pub fn bytes32_eq(a: &[u8; 32], b: &[u8; 32]) -> (r: bool)
    ensures
        r <==> a@ == b@,
{
    let mut i: usize = 0;
    while i < 32
        invariant
            0 <= i <= 32,
            forall|j: int| 0 <= j < i ==> a@[j] == b@[j],
        decreases 32 - i,
    {
        if a[i] != b[i] {
            assert(a@ != b@);
            return false;
        }
        i += 1;
    }
    proof {
        assert(a@ =~= b@);
    }
    true
}

/// Compare two 32-byte arrays in byte-wise lexicographic order.
pub fn bytes32_cmp(a: &[u8; 32], b: &[u8; 32]) -> (r: core::cmp::Ordering)
    ensures
        r == core::cmp::Ordering::Less <==> lex_lt(a@, b@),
        r == core::cmp::Ordering::Equal <==> a@ == b@,
        r == core::cmp::Ordering::Greater <==> lex_lt(b@, a@),
{
    let mut i: usize = 0;
    while i < 32
        invariant
            0 <= i <= 32,
            forall|j: int| 0 <= j < i ==> a@[j] == b@[j],
        decreases 32 - i,
    {
        if a[i] < b[i] {
            return core::cmp::Ordering::Less;
        }
        if a[i] > b[i] {
            return core::cmp::Ordering::Greater;
        }
        i += 1;
    }
    proof {
        assert(a@ =~= b@);
        assert(!lex_lt(a@, b@));
        assert(!lex_lt(b@, a@));
    }
    core::cmp::Ordering::Equal
}

/// Copy a 32-byte slice into an owned 32-byte array.
pub fn bytes32_from_slice(bytes: &[u8]) -> (r: [u8; 32])
    requires
        bytes@.len() == 32,
    ensures
        r@ == bytes@,
{
    let mut arr = [0u8; 32];
    let mut i: usize = 0;
    while i < 32
        invariant
            0 <= i <= 32,
            bytes@.len() == 32,
            forall|j: int| 0 <= j < i ==> arr@[j] == bytes@[j],
        decreases 32 - i,
    {
        arr[i] = bytes[i];
        i += 1;
    }
    proof {
        assert(arr@ =~= bytes@);
    }
    arr
}

/// Lexicographic order and equality are mutually exclusive, and exactly one
/// of `a < b`, `a == b`, `b < a` holds of any two 32-byte sequences.
pub proof fn lemma_lex_trichotomy(a: Seq<u8>, b: Seq<u8>)
    requires
        a.len() == 32,
        b.len() == 32,
    ensures
        lex_lt(a, b) ==> a != b && !lex_lt(b, a),
        lex_lt(b, a) ==> a != b && !lex_lt(a, b),
        a == b ==> !lex_lt(a, b) && !lex_lt(b, a),
        !lex_lt(a, b) && !lex_lt(b, a) ==> a == b,
{
    if lex_lt(a, b) && lex_lt(b, a) {
        let i = choose|i: int|
            0 <= i < a.len() && i < b.len() && (forall|j: int| 0 <= j < i ==> a[j] == b[j]) && a[i]
                < b[i];
        let k = choose|k: int|
            0 <= k < b.len() && k < a.len() && (forall|j: int| 0 <= j < k ==> b[j] == a[j]) && b[k]
                < a[k];
        if i < k {
            assert(b[i] == a[i]);
        } else if k < i {
            assert(a[k] == b[k]);
        }
    }
    if lex_lt(a, b) {
        let i = choose|i: int|
            0 <= i < a.len() && i < b.len() && (forall|j: int| 0 <= j < i ==> a[j] == b[j]) && a[i]
                < b[i];
        assert(a[i] != b[i]);
    }
    if lex_lt(b, a) {
        let k = choose|k: int|
            0 <= k < b.len() && k < a.len() && (forall|j: int| 0 <= j < k ==> b[j] == a[j]) && b[k]
                < a[k];
        assert(a[k] != b[k]);
    }
    if !lex_lt(a, b) && !lex_lt(b, a) && a != b {
        assert(exists|d: int| 0 <= d < 32 && a[d] != b[d]) by {
            if forall|d: int| 0 <= d < 32 ==> a[d] == b[d] {
                assert(a =~= b);
            }
        }
        let d = choose|d: int| 0 <= d < 32 && a[d] != b[d];
        lemma_first_difference(a, b, d);
    }
}

/// Byte-wise lexicographic order is transitive; together with
/// trichotomy it is a strict total order on 32-byte sequences.
pub proof fn lemma_lex_transitive(a: Seq<u8>, b: Seq<u8>, c: Seq<u8>)
    requires
        a.len() == 32,
        b.len() == 32,
        c.len() == 32,
        lex_lt(a, b),
        lex_lt(b, c),
    ensures
        lex_lt(a, c),
{
    let i = choose|i: int|
        0 <= i < a.len() && i < b.len() && (forall|j: int| 0 <= j < i ==> a[j] == b[j]) && a[i]
            < b[i];
    let k = choose|k: int|
        0 <= k < b.len() && k < c.len() && (forall|j: int| 0 <= j < k ==> b[j] == c[j]) && b[k]
            < c[k];
    if i <= k {
        assert(forall|j: int| 0 <= j < i ==> a[j] == c[j]);
        assert(a[i] < c[i]);
    } else {
        assert(forall|j: int| 0 <= j < k ==> a[j] == c[j]);
        assert(a[k] < c[k]);
    }
}

/// If two 32-byte sequences differ somewhere, one of them is
/// lexicographically below the other.
proof fn lemma_first_difference(a: Seq<u8>, b: Seq<u8>, d: int)
    requires
        a.len() == 32,
        b.len() == 32,
        0 <= d < 32,
        a[d] != b[d],
    ensures
        lex_lt(a, b) || lex_lt(b, a),
    decreases d,
{
    if forall|j: int| 0 <= j < d ==> a[j] == b[j] {
        if a[d] < b[d] {
            assert(lex_lt(a, b));
        } else {
            assert(lex_lt(b, a));
        }
    } else {
        let e = choose|e: int| 0 <= e < d && a[e] != b[e];
        lemma_first_difference(a, b, e);
    }
}

} // verus!
