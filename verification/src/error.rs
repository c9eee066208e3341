//! Error values returned by slice conversion and text parsing.

use vstd::prelude::*;

verus! {

/// Domain error for fixed-width byte-slice conversion.
///
/// The one variant is shared by every digest kind that offers slice
/// conversion, exactly as the surrounding system expects it.
#[derive(Clone, Copy, Debug, PartialEq, Eq, Structural, Hash)]
pub enum DigestError {
    /// The byte slice did not hold exactly 32 bytes.
    InvalidTransactionDigest,
}

/// Error for parsing a digest out of its canonical base-58 text form.
#[derive(Clone, Copy, Debug, PartialEq, Eq, Structural, Hash)]
pub enum Base58ParseError {
    /// The text held a character outside the base-58 alphabet.
    InvalidCharacter,
    /// The text decoded to a byte length other than 32.
    InvalidLength,
}

} // verus!
