//! The canonical 32-byte digest: an opaque fixed-size value with exact
//! byte equality, byte-wise lexicographic ordering, base-58 text form and
//! hex diagnostic forms.

use vstd::prelude::*;

use crate::bytes32::{bytes32_cmp, bytes32_eq, lex_cmp, lex_lt, repeated};
use crate::codec::{base58_encode32, base58_of};
use crate::hexfmt::{hex_of, hex_prefix, hex_string32};
use vstd::std_specs::cmp::PartialOrdSpec;

verus! {

/// A representation of a 32 byte digest.
#[derive(Clone, Copy, Eq, Ord, Hash, Debug)]
pub struct Digest([u8; 32]);

impl View for Digest {
    type V = Seq<u8>;

    closed spec fn view(&self) -> Seq<u8> {
        self.0@
    }
}

/// A digest's view always holds exactly 32 bytes.
pub broadcast proof fn lemma_digest_view_len(d: Digest)
    ensures
        (#[trigger] d@).len() == 32,
{
}

impl Digest {
    /// Wrap exactly the given 32 bytes.
    pub fn new(digest: [u8; 32]) -> (r: Self)
        ensures
            r@ == digest@,
    {
        Digest(digest)
    }

    /// The all-zero digest.
    pub fn zero() -> (r: Self)
        ensures
            r@ == repeated(0),
    {
        let r = Digest([0u8; 32]);
        proof {
            assert(r@ =~= repeated(0));
        }
        r
    }

    /// Relies on `rand::thread_rng` and `rand::RngCore::fill_bytes`: the 32
    /// bytes come from the process-default cryptographically secure
    /// generator.  Nothing is promised of the value.
    #[verifier::external_body]
    pub fn random() -> (r: Self) {
        let mut bytes = [0u8; 32];
        rand::RngCore::fill_bytes(&mut rand::thread_rng(), &mut bytes);
        Digest(bytes)
    }

    /// Borrow the raw 32 bytes.
    pub fn inner(&self) -> (r: &[u8; 32])
        ensures
            r@ == self@,
    {
        &self.0
    }

    /// Extract the raw 32 bytes.
    pub fn into_inner(self) -> (r: [u8; 32])
        ensures
            r@ == self@,
    {
        self.0
    }

    /// The canonical base-58 text form of the digest.
    pub fn base58_encode(&self) -> (r: String)
        ensures
            r@ == base58_of(self@),
    {
        base58_encode32(&self.0)
    }

    /// Lowercase hex diagnostic form, optionally `0x`-prefixed.
    pub fn hex_lower(&self, prefixed: bool) -> (r: String)
        ensures
            r@ == hex_prefix(prefixed) + hex_of(self@, false),
    {
        hex_string32(&self.0, false, prefixed)
    }

    /// Uppercase hex diagnostic form, optionally `0x`-prefixed.
    pub fn hex_upper(&self, prefixed: bool) -> (r: String)
        ensures
            r@ == hex_prefix(prefixed) + hex_of(self@, true),
    {
        hex_string32(&self.0, true, prefixed)
    }
}

impl Default for Digest {
    /// The default digest is the all-zero digest.
    fn default() -> (r: Self)
        ensures
            r@ == repeated(0),
    {
        Digest::zero()
    }
}

impl PartialEq for Digest {
    fn eq(&self, other: &Self) -> (r: bool) {
        bytes32_eq(&self.0, &other.0)
    }
}

impl vstd::std_specs::cmp::PartialEqSpecImpl for Digest {
    open spec fn obeys_eq_spec() -> bool {
        true
    }

    open spec fn eq_spec(&self, other: &Self) -> bool {
        self@ == other@
    }
}

impl PartialOrd for Digest {
    fn partial_cmp(&self, other: &Self) -> (r: Option<core::cmp::Ordering>) {
        Some(bytes32_cmp(&self.0, &other.0))
    }
}

impl vstd::std_specs::cmp::PartialOrdSpecImpl for Digest {
    open spec fn obeys_partial_cmp_spec() -> bool {
        true
    }

    open spec fn partial_cmp_spec(&self, other: &Self) -> Option<core::cmp::Ordering> {
        Some(lex_cmp(self@, other@))
    }
}

/// Two digests over the same bytes are the same digest: the view
/// determines the value.
pub proof fn lemma_digest_eq_by_view(a: Digest, b: Digest)
    requires
        a@ == b@,
    ensures
        a == b,
{
    assert(a.0 =~= b.0);
}

/// Ordering consistency: comparison of digests is exactly byte-wise
/// lexicographic order over the raw byte sequences.
pub proof fn lemma_digest_ordering(a: Digest, b: Digest)
    ensures
        a.partial_cmp_spec(&b) == Some(lex_cmp(a@, b@)),
        (a.partial_cmp_spec(&b) == Some(core::cmp::Ordering::Less)) <==> lex_lt(a@, b@),
{
}

} // verus!
