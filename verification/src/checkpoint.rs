//! Digest kinds for checkpoints and for checkpoint contents.
//!
//! The two kinds wrap one canonical [`Digest`] each and cannot be
//! interchanged with one another or with any other kind.  A checkpoint
//! digest has a default (all-zero) value; a checkpoint contents digest
//! deliberately has none.

use vstd::prelude::*;

use crate::bytes32::{lex_cmp, lex_lt, repeated};
use crate::codec::{all_base58_chars, base58_decode32, base58_of, encodes_32_bytes};
use crate::digest::{lemma_digest_eq_by_view, lemma_digest_view_len, Digest};
use crate::error::Base58ParseError;
use crate::hexfmt::{hex_of, hex_prefix};
use vstd::std_specs::cmp::PartialOrdSpec;

verus! {

/// Representation of a Checkpoint's digest.
#[derive(Clone, Copy, Eq, Ord, Hash, Debug)]
pub struct CheckpointDigest(Digest);

impl View for CheckpointDigest {
    type V = Seq<u8>;

    closed spec fn view(&self) -> Seq<u8> {
        self.0@
    }
}

/// A checkpoint digest's view always holds exactly 32 bytes.
pub broadcast proof fn lemma_checkpoint_digest_view_len(d: CheckpointDigest)
    ensures
        (#[trigger] d@).len() == 32,
{
    lemma_digest_view_len(d.0);
}

impl CheckpointDigest {
    /// Wrap exactly the given 32 bytes.
    pub fn new(digest: [u8; 32]) -> (r: Self)
        ensures
            r@ == digest@,
    {
        CheckpointDigest(Digest::new(digest))
    }

    /// A digest drawn from the process-default secure random generator.
    pub fn random() -> (r: Self) {
        CheckpointDigest(Digest::random())
    }

    /// Borrow the raw 32 bytes.
    pub fn inner(&self) -> (r: &[u8; 32])
        ensures
            r@ == self@,
    {
        self.0.inner()
    }

    /// Extract the raw 32 bytes.
    pub fn into_inner(self) -> (r: [u8; 32])
        ensures
            r@ == self@,
    {
        self.0.into_inner()
    }

    /// The canonical base-58 text form of the digest.
    pub fn base58_encode(&self) -> (r: String)
        ensures
            r@ == base58_of(self@),
    {
        self.0.base58_encode()
    }

    /// Lowercase hex diagnostic form, optionally `0x`-prefixed.
    pub fn hex_lower(&self, prefixed: bool) -> (r: String)
        ensures
            r@ == hex_prefix(prefixed) + hex_of(self@, false),
    {
        self.0.hex_lower(prefixed)
    }

    /// Uppercase hex diagnostic form, optionally `0x`-prefixed.
    pub fn hex_upper(&self, prefixed: bool) -> (r: String)
        ensures
            r@ == hex_prefix(prefixed) + hex_of(self@, true),
    {
        self.0.hex_upper(prefixed)
    }

    /// Parse canonical base-58 text into a checkpoint digest.
    ///
    /// Succeeds exactly on the canonical text of a 32-byte value, and then
    /// returns the digest of that value: parsing the encoding of any
    /// digest gives back that digest.
    pub fn from_base58(s: &str) -> (r: Result<Self, Base58ParseError>)
        ensures
            r is Ok <==> all_base58_chars(s@) && encodes_32_bytes(s@),
            r is Ok ==> s@ == base58_of(r->Ok_0@),
            forall|b: Seq<u8>| b.len() == 32 && s@ == base58_of(b) ==> r is Ok && r->Ok_0@ == b,
            r is Err ==> (r->Err_0 == Base58ParseError::InvalidCharacter <==> !all_base58_chars(
                s@,
            )),
            r is Err ==> (r->Err_0 == Base58ParseError::InvalidLength <==> all_base58_chars(s@)
                && !encodes_32_bytes(s@)),
    {
        match base58_decode32(s) {
            Ok(arr) => Ok(Self::new(arr)),
            Err(e) => Err(e),
        }
    }
}

impl Default for CheckpointDigest {
    /// The default checkpoint digest is the all-zero digest.
    fn default() -> (r: Self)
        ensures
            r@ == repeated(0),
    {
        CheckpointDigest(Digest::zero())
    }
}

impl PartialEq for CheckpointDigest {
    fn eq(&self, other: &Self) -> (r: bool) {
        self.0 == other.0
    }
}

impl vstd::std_specs::cmp::PartialEqSpecImpl for CheckpointDigest {
    open spec fn obeys_eq_spec() -> bool {
        true
    }

    open spec fn eq_spec(&self, other: &Self) -> bool {
        self@ == other@
    }
}

impl PartialOrd for CheckpointDigest {
    fn partial_cmp(&self, other: &Self) -> (r: Option<core::cmp::Ordering>) {
        self.0.partial_cmp(&other.0)
    }
}

impl vstd::std_specs::cmp::PartialOrdSpecImpl for CheckpointDigest {
    open spec fn obeys_partial_cmp_spec() -> bool {
        true
    }

    open spec fn partial_cmp_spec(&self, other: &Self) -> Option<core::cmp::Ordering> {
        Some(lex_cmp(self@, other@))
    }
}

impl std::str::FromStr for CheckpointDigest {
    type Err = Base58ParseError;

    fn from_str(s: &str) -> Result<Self, Base58ParseError> {
        Self::from_base58(s)
    }
}

/// Two checkpoint digests over the same bytes are the same value.
pub proof fn lemma_checkpoint_digest_eq_by_view(a: CheckpointDigest, b: CheckpointDigest)
    requires
        a@ == b@,
    ensures
        a == b,
{
    lemma_digest_eq_by_view(a.0, b.0);
}

/// Ordering consistency: checkpoint digests compare exactly as their raw
/// byte sequences do under byte-wise lexicographic order.
pub proof fn lemma_checkpoint_digest_ordering(a: CheckpointDigest, b: CheckpointDigest)
    ensures
        a.partial_cmp_spec(&b) == Some(lex_cmp(a@, b@)),
        (a.partial_cmp_spec(&b) == Some(core::cmp::Ordering::Less)) <==> lex_lt(a@, b@),
{
}

/// Round-trip law over text: parsing the canonical base-58 form of a
/// checkpoint digest gives back the same digest.
pub fn checkpoint_digest_round_trip(d: &CheckpointDigest) -> (r: CheckpointDigest)
    ensures
        r == *d,
{
    proof {
        lemma_checkpoint_digest_view_len(*d);
    }
    let s = d.base58_encode();
    match CheckpointDigest::from_base58(s.as_str()) {
        Ok(x) => {
            proof {
                lemma_checkpoint_digest_eq_by_view(x, *d);
            }
            x
        },
        Err(_) => vstd::pervasive::unreached(),
    }
}

/// Representation of the digest of a checkpoint's contents.  Unlike a
/// checkpoint digest, this kind has no default value.
#[derive(Clone, Copy, Eq, Ord, Hash, Debug)]
pub struct CheckpointContentsDigest(Digest);

impl View for CheckpointContentsDigest {
    type V = Seq<u8>;

    closed spec fn view(&self) -> Seq<u8> {
        self.0@
    }
}

/// A checkpoint contents digest's view always holds exactly 32 bytes.
pub broadcast proof fn lemma_checkpoint_contents_digest_view_len(d: CheckpointContentsDigest)
    ensures
        (#[trigger] d@).len() == 32,
{
    lemma_digest_view_len(d.0);
}

impl CheckpointContentsDigest {
    /// Wrap exactly the given 32 bytes.
    pub fn new(digest: [u8; 32]) -> (r: Self)
        ensures
            r@ == digest@,
    {
        CheckpointContentsDigest(Digest::new(digest))
    }

    /// A digest drawn from the process-default secure random generator.
    pub fn random() -> (r: Self) {
        CheckpointContentsDigest(Digest::random())
    }

    /// Borrow the raw 32 bytes.
    pub fn inner(&self) -> (r: &[u8; 32])
        ensures
            r@ == self@,
    {
        self.0.inner()
    }

    /// Extract the raw 32 bytes.
    pub fn into_inner(self) -> (r: [u8; 32])
        ensures
            r@ == self@,
    {
        self.0.into_inner()
    }

    /// The canonical base-58 text form of the digest.
    pub fn base58_encode(&self) -> (r: String)
        ensures
            r@ == base58_of(self@),
    {
        self.0.base58_encode()
    }

    /// Lowercase hex diagnostic form, optionally `0x`-prefixed.
    pub fn hex_lower(&self, prefixed: bool) -> (r: String)
        ensures
            r@ == hex_prefix(prefixed) + hex_of(self@, false),
    {
        self.0.hex_lower(prefixed)
    }

    /// Uppercase hex diagnostic form, optionally `0x`-prefixed.
    pub fn hex_upper(&self, prefixed: bool) -> (r: String)
        ensures
            r@ == hex_prefix(prefixed) + hex_of(self@, true),
    {
        self.0.hex_upper(prefixed)
    }
}

impl PartialEq for CheckpointContentsDigest {
    fn eq(&self, other: &Self) -> (r: bool) {
        self.0 == other.0
    }
}

impl vstd::std_specs::cmp::PartialEqSpecImpl for CheckpointContentsDigest {
    open spec fn obeys_eq_spec() -> bool {
        true
    }

    open spec fn eq_spec(&self, other: &Self) -> bool {
        self@ == other@
    }
}

impl PartialOrd for CheckpointContentsDigest {
    fn partial_cmp(&self, other: &Self) -> (r: Option<core::cmp::Ordering>) {
        self.0.partial_cmp(&other.0)
    }
}

impl vstd::std_specs::cmp::PartialOrdSpecImpl for CheckpointContentsDigest {
    open spec fn obeys_partial_cmp_spec() -> bool {
        true
    }

    open spec fn partial_cmp_spec(&self, other: &Self) -> Option<core::cmp::Ordering> {
        Some(lex_cmp(self@, other@))
    }
}

/// Two checkpoint contents digests over the same bytes are the same value.
pub proof fn lemma_checkpoint_contents_digest_eq_by_view(
    a: CheckpointContentsDigest,
    b: CheckpointContentsDigest,
)
    requires
        a@ == b@,
    ensures
        a == b,
{
    lemma_digest_eq_by_view(a.0, b.0);
}

/// Ordering consistency: checkpoint contents digests compare exactly as
/// their raw byte sequences do under byte-wise lexicographic order.
pub proof fn lemma_checkpoint_contents_digest_ordering(
    a: CheckpointContentsDigest,
    b: CheckpointContentsDigest,
)
    ensures
        a.partial_cmp_spec(&b) == Some(lex_cmp(a@, b@)),
        (a.partial_cmp_spec(&b) == Some(core::cmp::Ordering::Less)) <==> lex_lt(a@, b@),
{
}

} // verus!
