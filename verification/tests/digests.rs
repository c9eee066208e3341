use ledger_digests::checkpoint::{CheckpointContentsDigest, CheckpointDigest};
use ledger_digests::codec::base58_decode32;
use ledger_digests::digest::Digest;
use ledger_digests::error::{Base58ParseError, DigestError};
use ledger_digests::object::ObjectDigest;
use ledger_digests::transaction::{
    TransactionDigest, TransactionEffectsDigest, TransactionEventsDigest,
};

fn pattern(seed: u8) -> [u8; 32] {
    let mut b = [0u8; 32];
    let mut i = 0usize;
    while i < 32 {
        b[i] = seed.wrapping_add(i as u8).wrapping_mul(37);
        i += 1;
    }
    b
}

#[test]
fn bytes_round_trip() {
    for b in [[0u8; 32], [255u8; 32], pattern(1), pattern(93)] {
        let s = Digest::new(b).base58_encode();
        assert_eq!(base58_decode32(&s), Ok(b));
        assert_eq!(ledger_digests::codec::base58_round_trip(&b), b);
    }
}

#[test]
fn encode_matches_reference_codec() {
    for b in [[0u8; 32], [255u8; 32], pattern(7)] {
        let ours = Digest::new(b).base58_encode();
        let reference = bs58::encode(&b).into_string();
        assert_eq!(ours, reference);
    }
}

#[test]
fn known_encodings() {
    assert_eq!(
        Digest::new([0u8; 32]).base58_encode(),
        "11111111111111111111111111111111"
    );
    let mut one_at_end = [0u8; 32];
    one_at_end[31] = 1;
    assert_eq!(
        Digest::new(one_at_end).base58_encode(),
        "11111111111111111111111111111112"
    );
}

#[test]
fn text_round_trip_checkpoint() {
    let d = CheckpointDigest::new(pattern(11));
    let parsed: CheckpointDigest = d.base58_encode().parse().unwrap();
    assert_eq!(parsed, d);
    assert_eq!(
        ledger_digests::checkpoint::checkpoint_digest_round_trip(&d),
        d
    );
}

#[test]
fn text_round_trip_transaction() {
    let d = TransactionDigest::new(pattern(23));
    let parsed: TransactionDigest = d.base58_encode().parse().unwrap();
    assert_eq!(parsed, d);
    assert_eq!(
        ledger_digests::transaction::transaction_digest_round_trip(&d),
        d
    );
}

#[test]
fn text_round_trip_object() {
    let d = ObjectDigest::new(pattern(42));
    let parsed: ObjectDigest = d.base58_encode().parse().unwrap();
    assert_eq!(parsed, d);
    assert_eq!(ledger_digests::object::object_digest_round_trip(&d), d);
}

#[test]
fn ordering_matches_byte_order() {
    let mut lo = [0u8; 32];
    let mut hi = [0u8; 32];
    lo[0] = 1;
    hi[0] = 2;
    assert!(Digest::new(lo) < Digest::new(hi));
    assert!(Digest::new(hi) > Digest::new(lo));

    let mut late = [0u8; 32];
    late[31] = 1;
    assert!(Digest::new([0u8; 32]) < Digest::new(late));

    for (a, b) in [
        (pattern(3), pattern(4)),
        ([0u8; 32], [255u8; 32]),
        (pattern(9), pattern(9)),
    ] {
        assert_eq!(
            TransactionDigest::new(a) < TransactionDigest::new(b),
            a < b
        );
        assert_eq!(ObjectDigest::new(a) < ObjectDigest::new(b), a < b);
        assert_eq!(
            CheckpointContentsDigest::new(a) < CheckpointContentsDigest::new(b),
            a < b
        );
        assert_eq!(
            TransactionEventsDigest::new(a) == TransactionEventsDigest::new(b),
            a == b
        );
    }
}

#[test]
fn sentinel_distinctness() {
    assert_ne!(ObjectDigest::deleted(), ObjectDigest::wrapped());
    assert_eq!(ObjectDigest::deleted().into_inner(), [99u8; 32]);
    assert_eq!(ObjectDigest::wrapped().into_inner(), [88u8; 32]);
    assert!(!ObjectDigest::deleted().is_alive());
    assert!(!ObjectDigest::wrapped().is_alive());
    assert!(ObjectDigest::min().is_alive());
    assert!(ObjectDigest::max().is_alive());
    assert!(ObjectDigest::new(pattern(5)).is_alive());
}

#[test]
fn genesis_identity() {
    assert_eq!(TransactionDigest::default(), TransactionDigest::genesis());
    assert_eq!(TransactionDigest::genesis(), TransactionDigest::zero());
    assert_eq!(TransactionDigest::genesis().into_inner(), [0u8; 32]);
    assert_eq!(*TransactionDigest::default().inner(), [0u8; 32]);
}

#[test]
fn slice_conversion_length_validation() {
    for len in [0usize, 1, 31, 33, 64] {
        let v = vec![7u8; len];
        assert_eq!(
            TransactionDigest::try_from_bytes(&v),
            Err(DigestError::InvalidTransactionDigest)
        );
        assert_eq!(
            ObjectDigest::try_from_bytes(&v),
            Err(DigestError::InvalidTransactionDigest)
        );
    }
    let b = pattern(17);
    let t = TransactionDigest::try_from_bytes(&b).unwrap();
    assert_eq!(t.into_inner(), b);
    let o = ObjectDigest::try_from_bytes(&b).unwrap();
    assert_eq!(o.into_inner(), b);
}

#[test]
fn parse_rejects_invalid_characters() {
    for s in ["0", "O", "I", "l", "1111111111111111111111111111111O", "abc 123", "%%"] {
        assert_eq!(
            s.parse::<TransactionDigest>(),
            Err(Base58ParseError::InvalidCharacter)
        );
        assert_eq!(
            CheckpointDigest::from_base58(s),
            Err(Base58ParseError::InvalidCharacter)
        );
    }
}

#[test]
fn parse_rejects_wrong_length() {
    for s in ["", "1", "z", "2NEpo7TZRhna7vSvL", "111111111111111111111111111111111"] {
        assert_eq!(
            s.parse::<ObjectDigest>(),
            Err(Base58ParseError::InvalidLength)
        );
        assert_eq!(
            TransactionDigest::from_base58(s),
            Err(Base58ParseError::InvalidLength)
        );
    }
}

#[test]
fn object_min_max_scenario() {
    let min_text = ObjectDigest::min().base58_encode();
    assert_eq!(min_text, "11111111111111111111111111111111");
    assert_eq!(base58_decode32(&min_text), Ok([0u8; 32]));

    let max_text = ObjectDigest::max().base58_encode();
    assert_eq!(base58_decode32(&max_text), Ok([255u8; 32]));
    assert_eq!(max_text.parse::<ObjectDigest>(), Ok(ObjectDigest::max()));

    assert!(ObjectDigest::min().is_alive());
}

#[test]
fn hex_forms() {
    let zero = Digest::new([0u8; 32]);
    assert_eq!(zero.hex_lower(false), "0".repeat(64));
    assert_eq!(zero.hex_lower(true), format!("0x{}", "0".repeat(64)));

    let full = Digest::new([255u8; 32]);
    assert_eq!(full.hex_upper(false), "F".repeat(64));
    assert_eq!(full.hex_upper(true), format!("0x{}", "F".repeat(64)));

    let b = pattern(29);
    let expected_lower: String = b.iter().map(|x| format!("{:02x}", x)).collect();
    let expected_upper: String = b.iter().map(|x| format!("{:02X}", x)).collect();
    assert_eq!(Digest::new(b).hex_lower(false), expected_lower);
    assert_eq!(Digest::new(b).hex_upper(false), expected_upper);
    assert_eq!(
        CheckpointDigest::new(b).hex_lower(true),
        format!("0x{}", expected_lower)
    );
    assert_eq!(
        TransactionEffectsDigest::new(b).hex_upper(false),
        expected_upper
    );
    assert_eq!(ObjectDigest::new(b).hex_lower(false), expected_lower);
}

#[test]
fn defaults_are_zero() {
    assert_eq!(Digest::default(), Digest::zero());
    assert_eq!(Digest::default().into_inner(), [0u8; 32]);
    assert_eq!(CheckpointDigest::default().into_inner(), [0u8; 32]);
    assert_eq!(TransactionEffectsDigest::zero().into_inner(), [0u8; 32]);
}

#[test]
fn random_values_are_well_formed() {
    let a = Digest::random();
    assert_eq!(a, Digest::new(a.into_inner()));
    let c = CheckpointDigest::random();
    assert_eq!(c.into_inner().len(), 32);
    let cc = CheckpointContentsDigest::random();
    assert_eq!(cc, CheckpointContentsDigest::new(cc.into_inner()));
    let t = TransactionDigest::random();
    assert_eq!(t, TransactionDigest::new(t.into_inner()));
    let e = TransactionEffectsDigest::random();
    assert_eq!(e, TransactionEffectsDigest::new(e.into_inner()));
    let _ev = TransactionEventsDigest::random();
    let o = ObjectDigest::random();
    assert_eq!(o, ObjectDigest::new(o.into_inner()));
}

#[test]
fn events_digest_surface() {
    let a = TransactionEventsDigest::new([1u8; 32]);
    let b = TransactionEventsDigest::new([1u8; 32]);
    assert_eq!(a, b);
    assert_ne!(a, TransactionEventsDigest::zero());
    assert!(TransactionEventsDigest::zero() < a);
    assert_eq!(TransactionEventsDigest::zero(), TransactionEventsDigest::new([0u8; 32]));
}

#[test]
fn kind_accessors_expose_bytes() {
    let b = pattern(61);
    assert_eq!(*Digest::new(b).inner(), b);
    assert_eq!(*CheckpointDigest::new(b).inner(), b);
    assert_eq!(*CheckpointContentsDigest::new(b).inner(), b);
    assert_eq!(*TransactionDigest::new(b).inner(), b);
    assert_eq!(*TransactionEffectsDigest::new(b).inner(), b);
    assert_eq!(*ObjectDigest::new(b).inner(), b);
    assert_eq!(CheckpointContentsDigest::new(b).into_inner(), b);
    assert_eq!(TransactionEffectsDigest::new(b).into_inner(), b);
}

#[test]
fn base58_encode_agrees_across_kinds() {
    let b = pattern(77);
    let text = Digest::new(b).base58_encode();
    assert_eq!(CheckpointDigest::new(b).base58_encode(), text);
    assert_eq!(CheckpointContentsDigest::new(b).base58_encode(), text);
    assert_eq!(TransactionDigest::new(b).base58_encode(), text);
    assert_eq!(TransactionEffectsDigest::new(b).base58_encode(), text);
    assert_eq!(ObjectDigest::new(b).base58_encode(), text);
}
