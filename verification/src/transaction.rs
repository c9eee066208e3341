//! Digest kinds for transactions, transaction effects and transaction
//! events.
//!
//! A transaction digest reserves the all-zero value as the genesis marker
//! ("no parent transaction"), which is also its default value.  A
//! transaction events digest deliberately has the narrowest surface of
//! the family: construction, the zero value, and a random value only.

use vstd::prelude::*;

use crate::bytes32::{bytes32_from_slice, lex_cmp, lex_lt, repeated};
use crate::codec::{all_base58_chars, base58_decode32, base58_of, encodes_32_bytes};
use crate::digest::{lemma_digest_eq_by_view, lemma_digest_view_len, Digest};
use crate::error::{Base58ParseError, DigestError};
use crate::hexfmt::{hex_of, hex_prefix};
use vstd::std_specs::cmp::PartialOrdSpec;

verus! {

/// A transaction will have a (unique) digest.
#[derive(Clone, Copy, Eq, Ord, Hash, Debug)]
pub struct TransactionDigest(Digest);

impl View for TransactionDigest {
    type V = Seq<u8>;

    closed spec fn view(&self) -> Seq<u8> {
        self.0@
    }
}

/// A transaction digest's view always holds exactly 32 bytes.
pub broadcast proof fn lemma_transaction_digest_view_len(d: TransactionDigest)
    ensures
        (#[trigger] d@).len() == 32,
{
    lemma_digest_view_len(d.0);
}

impl TransactionDigest {
    /// Wrap exactly the given 32 bytes.
    pub fn new(digest: [u8; 32]) -> (r: Self)
        ensures
            r@ == digest@,
    {
        TransactionDigest(Digest::new(digest))
    }

    /// The reserved all-zero transaction digest.
    pub fn zero() -> (r: Self)
        ensures
            r@ == repeated(0),
    {
        TransactionDigest(Digest::zero())
    }

    /// The digest that signifies the parent transaction was the genesis,
    /// i.e. for an object there is no parent digest: the all-zero value.
    pub fn genesis() -> (r: Self)
        ensures
            r@ == repeated(0),
    {
        Self::zero()
    }

    /// A digest drawn from the process-default secure random generator.
    pub fn random() -> (r: Self) {
        TransactionDigest(Digest::random())
    }

    /// Borrow the raw 32 bytes.
    pub fn inner(&self) -> (r: &[u8; 32])
        ensures
            r@ == self@,
    {
        self.0.inner()
    }

    /// Extract the raw 32 bytes.
    pub fn into_inner(self) -> (r: [u8; 32])
        ensures
            r@ == self@,
    {
        self.0.into_inner()
    }

    /// The canonical base-58 text form of the digest.
    pub fn base58_encode(&self) -> (r: String)
        ensures
            r@ == base58_of(self@),
    {
        self.0.base58_encode()
    }

    /// Lowercase hex diagnostic form, optionally `0x`-prefixed.
    pub fn hex_lower(&self, prefixed: bool) -> (r: String)
        ensures
            r@ == hex_prefix(prefixed) + hex_of(self@, false),
    {
        self.0.hex_lower(prefixed)
    }

    /// Uppercase hex diagnostic form, optionally `0x`-prefixed.
    pub fn hex_upper(&self, prefixed: bool) -> (r: String)
        ensures
            r@ == hex_prefix(prefixed) + hex_of(self@, true),
    {
        self.0.hex_upper(prefixed)
    }

    /// Convert a byte slice holding exactly 32 bytes; any other length
    /// fails with the shared invalid-digest error.
    pub fn try_from_bytes(bytes: &[u8]) -> (r: Result<Self, DigestError>)
        ensures
            r is Ok <==> bytes@.len() == 32,
            r is Ok ==> r->Ok_0@ == bytes@,
            r is Err ==> r->Err_0 == DigestError::InvalidTransactionDigest,
    {
        if bytes.len() == 32 {
            Ok(Self::new(bytes32_from_slice(bytes)))
        } else {
            Err(DigestError::InvalidTransactionDigest)
        }
    }

    /// Parse canonical base-58 text into a transaction digest.
    ///
    /// Succeeds exactly on the canonical text of a 32-byte value, and then
    /// returns the digest of that value: parsing the encoding of any
    /// digest gives back that digest.
    pub fn from_base58(s: &str) -> (r: Result<Self, Base58ParseError>)
        ensures
            r is Ok <==> all_base58_chars(s@) && encodes_32_bytes(s@),
            r is Ok ==> s@ == base58_of(r->Ok_0@),
            forall|b: Seq<u8>| b.len() == 32 && s@ == base58_of(b) ==> r is Ok && r->Ok_0@ == b,
            r is Err ==> (r->Err_0 == Base58ParseError::InvalidCharacter <==> !all_base58_chars(
                s@,
            )),
            r is Err ==> (r->Err_0 == Base58ParseError::InvalidLength <==> all_base58_chars(s@)
                && !encodes_32_bytes(s@)),
    {
        match base58_decode32(s) {
            Ok(arr) => Ok(Self::new(arr)),
            Err(e) => Err(e),
        }
    }
}

impl Default for TransactionDigest {
    /// The default transaction digest is the genesis (all-zero) value.
    fn default() -> (r: Self)
        ensures
            r@ == repeated(0),
    {
        Self::zero()
    }
}

impl PartialEq for TransactionDigest {
    fn eq(&self, other: &Self) -> (r: bool) {
        self.0 == other.0
    }
}

impl vstd::std_specs::cmp::PartialEqSpecImpl for TransactionDigest {
    open spec fn obeys_eq_spec() -> bool {
        true
    }

    open spec fn eq_spec(&self, other: &Self) -> bool {
        self@ == other@
    }
}

impl PartialOrd for TransactionDigest {
    fn partial_cmp(&self, other: &Self) -> (r: Option<core::cmp::Ordering>) {
        self.0.partial_cmp(&other.0)
    }
}

impl vstd::std_specs::cmp::PartialOrdSpecImpl for TransactionDigest {
    open spec fn obeys_partial_cmp_spec() -> bool {
        true
    }

    open spec fn partial_cmp_spec(&self, other: &Self) -> Option<core::cmp::Ordering> {
        Some(lex_cmp(self@, other@))
    }
}

impl std::str::FromStr for TransactionDigest {
    type Err = Base58ParseError;

    fn from_str(s: &str) -> Result<Self, Base58ParseError> {
        Self::from_base58(s)
    }
}

/// Two transaction digests over the same bytes are the same value.
pub proof fn lemma_transaction_digest_eq_by_view(a: TransactionDigest, b: TransactionDigest)
    requires
        a@ == b@,
    ensures
        a == b,
{
    lemma_digest_eq_by_view(a.0, b.0);
}

/// Genesis identity law: any two transaction digests over all-zero bytes
/// are one value, so the default value, the genesis marker and the
/// reserved zero digest coincide.
pub proof fn lemma_genesis_identity(a: TransactionDigest, b: TransactionDigest)
    requires
        a@ == repeated(0),
        b@ == repeated(0),
    ensures
        a == b,
{
    lemma_transaction_digest_eq_by_view(a, b);
}

/// Ordering consistency: transaction digests compare exactly as their raw
/// byte sequences do under byte-wise lexicographic order.
pub proof fn lemma_transaction_digest_ordering(a: TransactionDigest, b: TransactionDigest)
    ensures
        a.partial_cmp_spec(&b) == Some(lex_cmp(a@, b@)),
        (a.partial_cmp_spec(&b) == Some(core::cmp::Ordering::Less)) <==> lex_lt(a@, b@),
{
}

/// Round-trip law over text: parsing the canonical base-58 form of a
/// transaction digest gives back the same digest.
pub fn transaction_digest_round_trip(d: &TransactionDigest) -> (r: TransactionDigest)
    ensures
        r == *d,
{
    proof {
        lemma_transaction_digest_view_len(*d);
    }
    let s = d.base58_encode();
    match TransactionDigest::from_base58(s.as_str()) {
        Ok(x) => {
            proof {
                lemma_transaction_digest_eq_by_view(x, *d);
            }
            x
        },
        Err(_) => vstd::pervasive::unreached(),
    }
}

/// The digest of a transaction's effects.
#[derive(Clone, Copy, Eq, Ord, Hash, Debug)]
pub struct TransactionEffectsDigest(Digest);

impl View for TransactionEffectsDigest {
    type V = Seq<u8>;

    closed spec fn view(&self) -> Seq<u8> {
        self.0@
    }
}

/// A transaction effects digest's view always holds exactly 32 bytes.
pub broadcast proof fn lemma_transaction_effects_digest_view_len(d: TransactionEffectsDigest)
    ensures
        (#[trigger] d@).len() == 32,
{
    lemma_digest_view_len(d.0);
}

impl TransactionEffectsDigest {
    /// Wrap exactly the given 32 bytes.
    pub fn new(digest: [u8; 32]) -> (r: Self)
        ensures
            r@ == digest@,
    {
        TransactionEffectsDigest(Digest::new(digest))
    }

    /// The reserved all-zero effects digest.
    pub fn zero() -> (r: Self)
        ensures
            r@ == repeated(0),
    {
        TransactionEffectsDigest(Digest::zero())
    }

    /// A digest drawn from the process-default secure random generator.
    pub fn random() -> (r: Self) {
        TransactionEffectsDigest(Digest::random())
    }

    /// Borrow the raw 32 bytes.
    pub fn inner(&self) -> (r: &[u8; 32])
        ensures
            r@ == self@,
    {
        self.0.inner()
    }

    /// Extract the raw 32 bytes.
    pub fn into_inner(self) -> (r: [u8; 32])
        ensures
            r@ == self@,
    {
        self.0.into_inner()
    }

    /// The canonical base-58 text form of the digest.
    pub fn base58_encode(&self) -> (r: String)
        ensures
            r@ == base58_of(self@),
    {
        self.0.base58_encode()
    }

    /// Lowercase hex diagnostic form, optionally `0x`-prefixed.
    pub fn hex_lower(&self, prefixed: bool) -> (r: String)
        ensures
            r@ == hex_prefix(prefixed) + hex_of(self@, false),
    {
        self.0.hex_lower(prefixed)
    }

    /// Uppercase hex diagnostic form, optionally `0x`-prefixed.
    pub fn hex_upper(&self, prefixed: bool) -> (r: String)
        ensures
            r@ == hex_prefix(prefixed) + hex_of(self@, true),
    {
        self.0.hex_upper(prefixed)
    }
}

impl PartialEq for TransactionEffectsDigest {
    fn eq(&self, other: &Self) -> (r: bool) {
        self.0 == other.0
    }
}

impl vstd::std_specs::cmp::PartialEqSpecImpl for TransactionEffectsDigest {
    open spec fn obeys_eq_spec() -> bool {
        true
    }

    open spec fn eq_spec(&self, other: &Self) -> bool {
        self@ == other@
    }
}

impl PartialOrd for TransactionEffectsDigest {
    fn partial_cmp(&self, other: &Self) -> (r: Option<core::cmp::Ordering>) {
        self.0.partial_cmp(&other.0)
    }
}

impl vstd::std_specs::cmp::PartialOrdSpecImpl for TransactionEffectsDigest {
    open spec fn obeys_partial_cmp_spec() -> bool {
        true
    }

    open spec fn partial_cmp_spec(&self, other: &Self) -> Option<core::cmp::Ordering> {
        Some(lex_cmp(self@, other@))
    }
}

/// Two effects digests over the same bytes are the same value.
pub proof fn lemma_transaction_effects_digest_eq_by_view(
    a: TransactionEffectsDigest,
    b: TransactionEffectsDigest,
)
    requires
        a@ == b@,
    ensures
        a == b,
{
    lemma_digest_eq_by_view(a.0, b.0);
}

/// Ordering consistency: effects digests compare exactly as their raw
/// byte sequences do under byte-wise lexicographic order.
pub proof fn lemma_transaction_effects_digest_ordering(
    a: TransactionEffectsDigest,
    b: TransactionEffectsDigest,
)
    ensures
        a.partial_cmp_spec(&b) == Some(lex_cmp(a@, b@)),
        (a.partial_cmp_spec(&b) == Some(core::cmp::Ordering::Less)) <==> lex_lt(a@, b@),
{
}

/// The digest of the events a transaction emitted.
///
/// This kind deliberately has the narrowest surface of the family: it is
/// constructed, compared and drawn at random, but is not converted from
/// byte slices, parsed from text, or rendered: events digests are not
/// expected to cross a user-facing text boundary.
#[derive(Clone, Copy, Eq, Ord, Hash, Debug)]
pub struct TransactionEventsDigest(Digest);

impl View for TransactionEventsDigest {
    type V = Seq<u8>;

    closed spec fn view(&self) -> Seq<u8> {
        self.0@
    }
}

/// A transaction events digest's view always holds exactly 32 bytes.
pub broadcast proof fn lemma_transaction_events_digest_view_len(d: TransactionEventsDigest)
    ensures
        (#[trigger] d@).len() == 32,
{
    lemma_digest_view_len(d.0);
}

impl TransactionEventsDigest {
    /// Wrap exactly the given 32 bytes.
    pub fn new(digest: [u8; 32]) -> (r: Self)
        ensures
            r@ == digest@,
    {
        TransactionEventsDigest(Digest::new(digest))
    }

    /// The reserved all-zero events digest.
    pub fn zero() -> (r: Self)
        ensures
            r@ == repeated(0),
    {
        TransactionEventsDigest(Digest::zero())
    }

    /// A digest drawn from the process-default secure random generator.
    pub fn random() -> (r: Self) {
        TransactionEventsDigest(Digest::random())
    }
}

impl PartialEq for TransactionEventsDigest {
    fn eq(&self, other: &Self) -> (r: bool) {
        self.0 == other.0
    }
}

impl vstd::std_specs::cmp::PartialEqSpecImpl for TransactionEventsDigest {
    open spec fn obeys_eq_spec() -> bool {
        true
    }

    open spec fn eq_spec(&self, other: &Self) -> bool {
        self@ == other@
    }
}

impl PartialOrd for TransactionEventsDigest {
    fn partial_cmp(&self, other: &Self) -> (r: Option<core::cmp::Ordering>) {
        self.0.partial_cmp(&other.0)
    }
}

impl vstd::std_specs::cmp::PartialOrdSpecImpl for TransactionEventsDigest {
    open spec fn obeys_partial_cmp_spec() -> bool {
        true
    }

    open spec fn partial_cmp_spec(&self, other: &Self) -> Option<core::cmp::Ordering> {
        Some(lex_cmp(self@, other@))
    }
}

/// Two events digests over the same bytes are the same value.
pub proof fn lemma_transaction_events_digest_eq_by_view(
    a: TransactionEventsDigest,
    b: TransactionEventsDigest,
)
    requires
        a@ == b@,
    ensures
        a == b,
{
    lemma_digest_eq_by_view(a.0, b.0);
}

/// Ordering consistency: events digests compare exactly as their raw byte
/// sequences do under byte-wise lexicographic order.
pub proof fn lemma_transaction_events_digest_ordering(
    a: TransactionEventsDigest,
    b: TransactionEventsDigest,
)
    ensures
        a.partial_cmp_spec(&b) == Some(lex_cmp(a@, b@)),
        (a.partial_cmp_spec(&b) == Some(core::cmp::Ordering::Less)) <==> lex_lt(a@, b@),
{
}

} // verus!
