//! Typed, content-addressed 32-byte identifiers for a distributed ledger.
//!
//! A canonical [`digest::Digest`] holds exactly 32 raw bytes.  Six nominal
//! wrapper kinds (checkpoints, checkpoint contents, transactions, transaction
//! effects, transaction events, objects) each embed one canonical digest and
//! cannot be confused with one another at compile time.

use vstd::prelude::*;

pub mod bytes32;
pub mod checkpoint;
pub mod codec;
pub mod digest;
pub mod error;
pub mod hexfmt;
pub mod object;
pub mod transaction;

pub use checkpoint::CheckpointContentsDigest;
pub use checkpoint::CheckpointDigest;
pub use digest::Digest;
pub use error::Base58ParseError;
pub use error::DigestError;
pub use object::ObjectDigest;
pub use transaction::TransactionDigest;
pub use transaction::TransactionEffectsDigest;
pub use transaction::TransactionEventsDigest;

verus! {

} // verus!
