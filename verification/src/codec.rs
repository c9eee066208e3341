//! The canonical base-58 text codec, consumed through trusted wrappers
//! around `fastcrypto::encoding::Base58`, and the verified 32-byte
//! decode built on top of it.

use vstd::prelude::*;

use crate::error::Base58ParseError;
use fastcrypto::encoding::Encoding;

verus! {

/// The base-58 text that encoding a byte sequence produces.  The text is a
/// function of the bytes alone; its exact shape is left to the codec.
pub uninterp spec fn base58_of(bytes: Seq<u8>) -> Seq<char>;

/// Membership in the base-58 alphabet: the 58 ASCII digits and letters
/// that remain once `0`, `O`, `I` and `l` are removed.
pub open spec fn is_base58_char(c: char) -> bool {
    ('1' <= c && c <= '9') || ('A' <= c && c <= 'Z' && c != 'I' && c != 'O') || ('a' <= c && c
        <= 'z' && c != 'l')
}

/// Every character of the text lies in the base-58 alphabet.
pub open spec fn all_base58_chars(s: Seq<char>) -> bool {
    forall|i: int| 0 <= i < s.len() ==> is_base58_char(s[i])
}

/// The text is the canonical encoding of some 32-byte value.
pub open spec fn encodes_32_bytes(s: Seq<char>) -> bool {
    exists|b: Seq<u8>| b.len() == 32 && s == base58_of(b)
}

/// Relies on `fastcrypto::encoding::Base58::encode`, which is
/// `bs58::encode` over the Bitcoin alphabet: the returned text is a
/// function of the input bytes alone.
#[verifier::external_body]
pub(crate) fn base58_encode32(bytes: &[u8; 32]) -> (r: String)
    ensures
        r@ == base58_of(bytes@),
{
    fastcrypto::encoding::Base58::encode(bytes)
}

/// Relies on `fastcrypto::encoding::Base58::decode`, which is
/// `bs58::decode` over the Bitcoin alphabet: it fails exactly on a
/// character outside the alphabet, returns the unique preimage of any
/// encoded text, and returns only bytes that encode back to the input.
#[verifier::external_body]
fn base58_decode_str(s: &str) -> (r: Option<Vec<u8>>)
    ensures
        r is Some <==> all_base58_chars(s@),
        r is Some ==> s@ == base58_of(r->0@),
        forall|b: Seq<u8>| s@ == base58_of(b) ==> r is Some && r->0@ == b,
{
    fastcrypto::encoding::Base58::decode(s).ok()
}

/// Decode canonical base-58 text into exactly 32 bytes.
///
/// Succeeds exactly on the canonical text of a 32-byte value, and then
/// returns that value; fails on a character outside the base-58 alphabet,
/// or on text that decodes to any other byte length.
pub fn base58_decode32(s: &str) -> (r: Result<[u8; 32], Base58ParseError>)
    ensures
        r is Ok <==> all_base58_chars(s@) && encodes_32_bytes(s@),
        r is Ok ==> s@ == base58_of(r->Ok_0@),
        forall|b: Seq<u8>| b.len() == 32 && s@ == base58_of(b) ==> r is Ok && r->Ok_0@ == b,
        r is Err ==> (r->Err_0 == Base58ParseError::InvalidCharacter <==> !all_base58_chars(s@)),
        r is Err ==> (r->Err_0 == Base58ParseError::InvalidLength <==> all_base58_chars(s@)
            && !encodes_32_bytes(s@)),
{
    match base58_decode_str(s) {
        None => {
            proof {
                assert(!encodes_32_bytes(s@) || !all_base58_chars(s@));
            }
            Err(Base58ParseError::InvalidCharacter)
        },
        Some(v) => {
            if v.len() == 32 {
                let mut arr = [0u8; 32];
                let mut i: usize = 0;
                while i < 32
                    invariant
                        0 <= i <= 32,
                        v@.len() == 32,
                        arr@.len() == 32,
                        forall|j: int| 0 <= j < i ==> arr@[j] == v@[j],
                    decreases 32 - i,
                {
                    arr[i] = v[i];
                    i += 1;
                }
                proof {
                    assert(arr@ =~= v@);
                }
                Ok(arr)
            } else {
                proof {
                    assert(!encodes_32_bytes(s@)) by {
                        if encodes_32_bytes(s@) {
                            let b = choose|b: Seq<u8>|
                                b.len() == 32 && s@ == base58_of(b);
                            assert(v@ == b);
                        }
                    }
                }
                Err(Base58ParseError::InvalidLength)
            }
        },
    }
}

/// Round-trip law over raw bytes: decoding the base-58 encoding of any
/// 32-byte value gives back exactly those bytes.
pub fn base58_round_trip(bytes: &[u8; 32]) -> (r: [u8; 32])
    ensures
        r@ == bytes@,
{
    let s = base58_encode32(bytes);
    match base58_decode32(s.as_str()) {
        Ok(arr) => arr,
        Err(_) => vstd::pervasive::unreached(),
    }
}

} // verus!
