//! The digest kind that names an object.
//!
//! Beside the common family surface, an object digest reserves two
//! tombstone values: all bytes 99 for a deleted object and all bytes 88
//! for an object wrapped into another. It bounds its value range with
//! an all-zero minimum and an all-0xFF maximum for iteration and pruning.

use vstd::prelude::*;

use crate::bytes32::{bytes32_from_slice, lex_cmp, lex_lt, repeated};
use crate::codec::{all_base58_chars, base58_decode32, base58_of, encodes_32_bytes};
use crate::digest::{lemma_digest_eq_by_view, lemma_digest_view_len, Digest};
use crate::error::{Base58ParseError, DigestError};
use crate::hexfmt::{hex_of, hex_prefix};
use vstd::std_specs::cmp::PartialOrdSpec;

verus! {

/// The byte repeated through the tombstone of a deleted object.
pub const OBJECT_DIGEST_DELETED_BYTE_VAL: u8 = 99;

/// The byte repeated through the tombstone of a wrapped object.
pub const OBJECT_DIGEST_WRAPPED_BYTE_VAL: u8 = 88;

/// Each object has a unique digest.
#[derive(Clone, Copy, Eq, Ord, Hash, Debug)]
pub struct ObjectDigest(Digest);

impl View for ObjectDigest {
    type V = Seq<u8>;

    closed spec fn view(&self) -> Seq<u8> {
        self.0@
    }
}

/// An object digest's view always holds exactly 32 bytes.
pub broadcast proof fn lemma_object_digest_view_len(d: ObjectDigest)
    ensures
        (#[trigger] d@).len() == 32,
{
    lemma_digest_view_len(d.0);
}

impl ObjectDigest {
    /// Wrap exactly the given 32 bytes.
    pub fn new(digest: [u8; 32]) -> (r: Self)
        ensures
            r@ == digest@,
    {
        ObjectDigest(Digest::new(digest))
    }

    /// The least object digest: all bytes zero.
    pub fn min() -> (r: Self)
        ensures
            r@ == repeated(0),
    {
        ObjectDigest(Digest::zero())
    }

    /// The greatest object digest: all bytes 0xFF.
    pub fn max() -> (r: Self)
        ensures
            r@ == repeated(255),
    {
        let r = ObjectDigest(Digest::new([255u8; 32]));
        proof {
            assert(r@ =~= repeated(255));
        }
        r
    }

    /// A marker that signifies the object is deleted: all bytes 99.
    pub fn deleted() -> (r: Self)
        ensures
            r@ == repeated(OBJECT_DIGEST_DELETED_BYTE_VAL),
    {
        let r = ObjectDigest(Digest::new([OBJECT_DIGEST_DELETED_BYTE_VAL; 32]));
        proof {
            assert(r@ =~= repeated(OBJECT_DIGEST_DELETED_BYTE_VAL));
        }
        r
    }

    /// A marker that signifies the object is wrapped into another object:
    /// all bytes 88.
    pub fn wrapped() -> (r: Self)
        ensures
            r@ == repeated(OBJECT_DIGEST_WRAPPED_BYTE_VAL),
    {
        let r = ObjectDigest(Digest::new([OBJECT_DIGEST_WRAPPED_BYTE_VAL; 32]));
        proof {
            assert(r@ =~= repeated(OBJECT_DIGEST_WRAPPED_BYTE_VAL));
        }
        r
    }

    /// A digest drawn from the process-default secure random generator.
    pub fn random() -> (r: Self) {
        ObjectDigest(Digest::random())
    }

    /// Borrow the raw 32 bytes.
    pub fn inner(&self) -> (r: &[u8; 32])
        ensures
            r@ == self@,
    {
        self.0.inner()
    }

    /// Extract the raw 32 bytes.
    pub fn into_inner(self) -> (r: [u8; 32])
        ensures
            r@ == self@,
    {
        self.0.into_inner()
    }

    /// Liveness predicate: true exactly when the digest is neither the
    /// deleted nor the wrapped tombstone.
    pub fn is_alive(&self) -> (r: bool)
        ensures
            r == (self@ != repeated(OBJECT_DIGEST_DELETED_BYTE_VAL) && self@ != repeated(
                OBJECT_DIGEST_WRAPPED_BYTE_VAL,
            )),
    {
        *self != Self::deleted() && *self != Self::wrapped()
    }

    /// The canonical base-58 text form of the digest.
    pub fn base58_encode(&self) -> (r: String)
        ensures
            r@ == base58_of(self@),
    {
        self.0.base58_encode()
    }

    /// Lowercase hex diagnostic form, optionally `0x`-prefixed.
    pub fn hex_lower(&self, prefixed: bool) -> (r: String)
        ensures
            r@ == hex_prefix(prefixed) + hex_of(self@, false),
    {
        self.0.hex_lower(prefixed)
    }

    /// Uppercase hex diagnostic form, optionally `0x`-prefixed.
    pub fn hex_upper(&self, prefixed: bool) -> (r: String)
        ensures
            r@ == hex_prefix(prefixed) + hex_of(self@, true),
    {
        self.0.hex_upper(prefixed)
    }

    /// Convert a byte slice holding exactly 32 bytes; any other length
    /// fails with the shared invalid-digest error.
    pub fn try_from_bytes(bytes: &[u8]) -> (r: Result<Self, DigestError>)
        ensures
            r is Ok <==> bytes@.len() == 32,
            r is Ok ==> r->Ok_0@ == bytes@,
            r is Err ==> r->Err_0 == DigestError::InvalidTransactionDigest,
    {
        if bytes.len() == 32 {
            Ok(Self::new(bytes32_from_slice(bytes)))
        } else {
            Err(DigestError::InvalidTransactionDigest)
        }
    }

    /// Parse canonical base-58 text into an object digest.
    ///
    /// Succeeds exactly on the canonical text of a 32-byte value, and then
    /// returns the digest of that value: parsing the encoding of any
    /// digest gives back that digest.
    pub fn from_base58(s: &str) -> (r: Result<Self, Base58ParseError>)
        ensures
            r is Ok <==> all_base58_chars(s@) && encodes_32_bytes(s@),
            r is Ok ==> s@ == base58_of(r->Ok_0@),
            forall|b: Seq<u8>| b.len() == 32 && s@ == base58_of(b) ==> r is Ok && r->Ok_0@ == b,
            r is Err ==> (r->Err_0 == Base58ParseError::InvalidCharacter <==> !all_base58_chars(
                s@,
            )),
            r is Err ==> (r->Err_0 == Base58ParseError::InvalidLength <==> all_base58_chars(s@)
                && !encodes_32_bytes(s@)),
    {
        match base58_decode32(s) {
            Ok(arr) => Ok(Self::new(arr)),
            Err(e) => Err(e),
        }
    }
}

impl PartialEq for ObjectDigest {
    fn eq(&self, other: &Self) -> (r: bool) {
        self.0 == other.0
    }
}

impl vstd::std_specs::cmp::PartialEqSpecImpl for ObjectDigest {
    open spec fn obeys_eq_spec() -> bool {
        true
    }

    open spec fn eq_spec(&self, other: &Self) -> bool {
        self@ == other@
    }
}

impl PartialOrd for ObjectDigest {
    fn partial_cmp(&self, other: &Self) -> (r: Option<core::cmp::Ordering>) {
        self.0.partial_cmp(&other.0)
    }
}

impl vstd::std_specs::cmp::PartialOrdSpecImpl for ObjectDigest {
    open spec fn obeys_partial_cmp_spec() -> bool {
        true
    }

    open spec fn partial_cmp_spec(&self, other: &Self) -> Option<core::cmp::Ordering> {
        Some(lex_cmp(self@, other@))
    }
}

impl std::str::FromStr for ObjectDigest {
    type Err = Base58ParseError;

    fn from_str(s: &str) -> Result<Self, Base58ParseError> {
        Self::from_base58(s)
    }
}

/// Two object digests over the same bytes are the same value.
pub proof fn lemma_object_digest_eq_by_view(a: ObjectDigest, b: ObjectDigest)
    requires
        a@ == b@,
    ensures
        a == b,
{
    lemma_digest_eq_by_view(a.0, b.0);
}

/// Sentinel distinctness law: an object digest over all-99 bytes and one
/// over all-88 bytes are never the same value.
pub proof fn lemma_sentinels_distinct(d: ObjectDigest, w: ObjectDigest)
    requires
        d@ == repeated(OBJECT_DIGEST_DELETED_BYTE_VAL),
        w@ == repeated(OBJECT_DIGEST_WRAPPED_BYTE_VAL),
    ensures
        d != w,
{
    assert(repeated(OBJECT_DIGEST_DELETED_BYTE_VAL)[0] == 99);
    assert(repeated(OBJECT_DIGEST_WRAPPED_BYTE_VAL)[0] == 88);
}

/// Ordering consistency: object digests compare exactly as their raw byte
/// sequences do under byte-wise lexicographic order.
pub proof fn lemma_object_digest_ordering(a: ObjectDigest, b: ObjectDigest)
    ensures
        a.partial_cmp_spec(&b) == Some(lex_cmp(a@, b@)),
        (a.partial_cmp_spec(&b) == Some(core::cmp::Ordering::Less)) <==> lex_lt(a@, b@),
{
}

/// Round-trip law over text: parsing the canonical base-58 form of an
/// object digest gives back the same digest.
pub fn object_digest_round_trip(d: &ObjectDigest) -> (r: ObjectDigest)
    ensures
        r == *d,
{
    proof {
        lemma_object_digest_view_len(*d);
    }
    let s = d.base58_encode();
    match ObjectDigest::from_base58(s.as_str()) {
        Ok(x) => {
            proof {
                lemma_object_digest_eq_by_view(x, *d);
            }
            x
        },
        Err(_) => vstd::pervasive::unreached(),
    }
}

} // verus!
