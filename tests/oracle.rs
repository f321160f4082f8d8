use dlc_compat::digits::{digit_tokens, parse_u64};
use dlc_compat::codec::CodecError;
use dlc_compat::oracle::{
    announcement_from_seeds, attestation_from_seeds, attestation_outcomes, build_announcement,
    build_attestation, create_nonce_keypair, create_oracle_announcement,
    create_oracle_attestation, encode_announcement, encode_attestation, event_to_dlc,
    fixture_descriptor, nonce_keypair_from_seed, read_announcement, Descriptor, EventType,
    OracleError,
};
use dlc_compat::frame::frame;
use dlc_compat::kind::ANNOUNCEMENT_TYPE_ID;
use lightning::util::ser::Writeable;
use secp256k1_zkp::{Message, SECP256K1};

fn sha256(b: &[u8]) -> [u8; 32] {
    bitcoin::hashes::Hash::to_byte_array(<bitcoin::hashes::sha256::Hash as bitcoin::hashes::Hash>::hash(b))
}

fn enum_descriptor() -> Descriptor {
    Descriptor::Enum { outcomes: vec!["win".to_string(), "lose".to_string(), "draw".to_string()] }
}

#[test]
fn parse_u64_accepts_decimal_literals() {
    assert_eq!(parse_u64("42"), Some(42));
    assert_eq!(parse_u64("+7"), Some(7));
    assert_eq!(parse_u64("007"), Some(7));
    assert_eq!(parse_u64("18446744073709551615"), Some(u64::MAX));
    assert_eq!(parse_u64("18446744073709551616"), None);
    assert_eq!(parse_u64("99999999999999999999"), None);
    assert_eq!(parse_u64(""), None);
    assert_eq!(parse_u64("+"), None);
    assert_eq!(parse_u64("-1"), None);
    assert_eq!(parse_u64("4a"), None);
    assert_eq!(parse_u64(" 4"), None);
    for s in ["0", "123", "+5", "1x", "", "18446744073709551616"] {
        assert_eq!(parse_u64(s), s.parse::<u64>().ok());
    }
}

#[test]
fn forty_two_in_eight_digits() {
    assert_eq!(digit_tokens(42, 8), vec!["0", "1", "0", "1", "0", "1", "0", "0"]);
    assert_eq!(digit_tokens(5, 0), Vec::<String>::new());
    assert_eq!(digit_tokens(3, 3), vec!["1", "1", "0"]);
}

#[test]
fn digits_past_the_sixty_fourth_are_zero() {
    let t = digit_tokens(u64::MAX, 66);
    assert_eq!(t.len(), 66);
    assert!(t[..64].iter().all(|s| s == "1"));
    assert_eq!(&t[64..], &["0", "0"]);
}

#[test]
fn enum_outcome_must_be_listed() {
    let d = enum_descriptor();
    assert_eq!(attestation_outcomes(&d, "lose"), Ok(vec!["lose".to_string()]));
    assert_eq!(attestation_outcomes(&d, "tie"), Err(OracleError::InvalidOutcome));
    assert_eq!(attestation_outcomes(&d, ""), Err(OracleError::InvalidOutcome));
}

#[test]
fn numeric_outcome_must_parse() {
    let d = fixture_descriptor(EventType::DigitDecomposition);
    assert_eq!(attestation_outcomes(&d, "abc"), Err(OracleError::OutcomeNotNumeric));
    assert_eq!(attestation_outcomes(&d, "255").unwrap(), vec!["1"; 8]);
}

#[test]
fn fixture_descriptors() {
    assert_eq!(fixture_descriptor(EventType::Enum), enum_descriptor());
    assert_eq!(
        fixture_descriptor(EventType::DigitDecomposition),
        Descriptor::DigitDecomposition {
            base: 2,
            is_signed: false,
            unit: "BTCUSD".to_string(),
            precision: 0,
            nb_digits: 8,
        }
    );
}

#[test]
fn event_type_names() {
    assert_eq!(EventType::from_name("enum"), Some(EventType::Enum));
    assert_eq!(EventType::from_name("digit-decomposition"), Some(EventType::DigitDecomposition));
    assert_eq!(EventType::from_name("numeric"), None);
}

#[test]
fn nonce_keypair_halves_match() {
    let (secret, public) = create_nonce_keypair().unwrap();
    assert_eq!(secret.x_only_public_key(SECP256K1).0, public);
    let (other, _) = create_nonce_keypair().unwrap();
    assert_ne!(secret, other);
}

#[test]
fn enum_announcement_has_one_nonce() {
    let a = build_announcement(EventType::Enum, "game", 1234).unwrap();
    assert_eq!(a.event.nonces.len(), 1);
    assert_eq!(a.event.event_id, "game");
    assert_eq!(a.event.maturity, 1234);
    assert_eq!(a.event.descriptor, enum_descriptor());
}

#[test]
fn digit_announcement_has_eight_nonces() {
    let a = build_announcement(EventType::DigitDecomposition, "price", 99).unwrap();
    assert_eq!(a.event.nonces.len(), 8);
    assert_eq!(a.event.descriptor, fixture_descriptor(EventType::DigitDecomposition));
}

#[test]
fn announcement_signature_binds_the_event() {
    let a = build_announcement(EventType::Enum, "bound", 77).unwrap();
    let bytes = event_to_dlc(&a.event).encode();
    let msg = Message::from_digest(sha256(&bytes));
    assert!(SECP256K1.verify_schnorr(&a.signature, &msg, &a.oracle_public_key).is_ok());
    for i in 0..bytes.len() {
        let mut changed = bytes.clone();
        changed[i] ^= 1;
        let msg = Message::from_digest(sha256(&changed));
        assert!(SECP256K1.verify_schnorr(&a.signature, &msg, &a.oracle_public_key).is_err());
    }
}

#[test]
fn enum_attestation_has_one_signature() {
    let a = build_announcement(EventType::Enum, "game", 1).unwrap();
    let att = build_attestation(&a, "win").unwrap();
    assert_eq!(att.outcomes, vec!["win"]);
    assert_eq!(att.signatures.len(), 1);
    assert_eq!(att.event_id, "game");
    assert!(matches!(build_attestation(&a, "tie"), Err(OracleError::InvalidOutcome)));
}

#[test]
fn digit_attestation_of_forty_two() {
    let a = build_announcement(EventType::DigitDecomposition, "price", 1).unwrap();
    let att = build_attestation(&a, "42").unwrap();
    assert_eq!(att.outcomes, vec!["0", "1", "0", "1", "0", "1", "0", "0"]);
    assert_eq!(att.signatures.len(), 8);
    assert!(matches!(build_attestation(&a, "forty-two"), Err(OracleError::OutcomeNotNumeric)));
}

#[test]
fn unsupported_event_type_is_refused() {
    assert!(matches!(
        create_oracle_announcement("numeric", "x", 1),
        Err(OracleError::UnsupportedEventType)
    ));
}

#[test]
fn announcement_bytes_errors() {
    assert!(matches!(read_announcement(&[1]), Err(OracleError::AnnouncementTooShort)));
    assert!(matches!(read_announcement(&[]), Err(OracleError::AnnouncementTooShort)));
    assert!(matches!(read_announcement(&[0, 1, 2]), Err(OracleError::UnexpectedType(1))));
    assert!(matches!(read_announcement(&[0xD8, 0x24, 0]), Err(OracleError::InvalidAnnouncement)));
}

#[test]
fn created_announcement_is_attested() {
    let (a, text) = create_oracle_announcement("enum", "test-event-001", 1640995200).unwrap();
    assert_eq!(text, text.to_lowercase());
    let back = read_announcement(&hex::decode(&text).unwrap()).unwrap();
    assert_eq!(back, a);
    let (att, att_text) = create_oracle_attestation(&text, "draw").unwrap();
    assert_eq!(att.event_id, "test-event-001");
    assert_eq!(att.outcomes, vec!["draw"]);
    assert_eq!(hex::encode(hex::decode(&att_text).unwrap()), att_text);
    assert!(matches!(create_oracle_attestation(&text, "tie"), Err(OracleError::InvalidOutcome)));
    assert!(matches!(create_oracle_attestation("0", "draw"), Err(OracleError::InvalidHex)));
    assert!(matches!(create_oracle_attestation("00", "draw"), Err(OracleError::AnnouncementTooShort)));
}

#[test]
fn legacy_announcement_bytes_are_read() {
    let a = build_announcement(EventType::Enum, "legacy", 3).unwrap();
    let bytes = frame(ANNOUNCEMENT_TYPE_ID, &dlc_compat::oracle::announcement_to_dlc(&a).encode());
    assert_eq!(read_announcement(&bytes).unwrap(), a);
}

fn seeds(n: usize, first: u8) -> Vec<[u8; 32]> {
    (0..n).map(|i| [first.wrapping_add(i as u8); 32]).collect()
}

#[test]
fn nonce_keypair_from_seed_is_deterministic() {
    let (s1, p1) = nonce_keypair_from_seed(&[7u8; 32]).unwrap();
    let (s2, p2) = nonce_keypair_from_seed(&[7u8; 32]).unwrap();
    assert_eq!(s1, s2);
    assert_eq!(p1, p2);
    assert_eq!(s1.x_only_public_key(SECP256K1).0, p1);
    let (s3, _) = nonce_keypair_from_seed(&[8u8; 32]).unwrap();
    assert_ne!(s1, s3);
}

#[test]
fn announcement_from_seeds_is_deterministic_and_signed() {
    let a = announcement_from_seeds(EventType::DigitDecomposition, "seeded", 9, &[1u8; 32], &seeds(8, 2), &[3u8; 32]).unwrap();
    let b = announcement_from_seeds(EventType::DigitDecomposition, "seeded", 9, &[1u8; 32], &seeds(8, 2), &[3u8; 32]).unwrap();
    assert_eq!(a, b);
    assert_eq!(a.event.nonces.len(), 8);
    assert_eq!(a.event.nonces[0], nonce_keypair_from_seed(&[2u8; 32]).unwrap().1);
    let msg = Message::from_digest(sha256(&event_to_dlc(&a.event).encode()));
    assert!(SECP256K1.verify_schnorr(&a.signature, &msg, &a.oracle_public_key).is_ok());
}

#[test]
fn announcement_from_too_few_seeds_lacks_randomness() {
    assert_eq!(
        announcement_from_seeds(EventType::DigitDecomposition, "x", 1, &[1u8; 32], &seeds(7, 2), &[0u8; 32]),
        Err(OracleError::RandomnessUnavailable)
    );
    assert_eq!(
        announcement_from_seeds(EventType::Enum, "x", 1, &[1u8; 32], &Vec::new(), &[0u8; 32]),
        Err(OracleError::RandomnessUnavailable)
    );
}

#[test]
fn invalid_oracle_seed_fails_key_derivation() {
    assert_eq!(
        announcement_from_seeds(EventType::Enum, "x", 1, &[0u8; 32], &seeds(1, 2), &[0u8; 32]),
        Err(OracleError::KeyDerivationFailed)
    );
    assert_eq!(
        announcement_from_seeds(EventType::Enum, "x", 1, &[0xFFu8; 32], &seeds(1, 2), &[0u8; 32]),
        Err(OracleError::KeyDerivationFailed)
    );
}

#[test]
fn attestation_from_seeds_signs_each_token_with_its_nonce() {
    let a = announcement_from_seeds(EventType::DigitDecomposition, "p", 1, &[1u8; 32], &seeds(8, 2), &[3u8; 32]).unwrap();
    let att = attestation_from_seeds(&a, "42", &[4u8; 32], &seeds(8, 10), &[5u8; 32]).unwrap();
    assert_eq!(att.outcomes, vec!["0", "1", "0", "1", "0", "1", "0", "0"]);
    for i in 0..8 {
        let (secret, public) = nonce_keypair_from_seed(&[10 + i as u8; 32]).unwrap();
        let _ = secret;
        let msg = Message::from_digest(sha256(att.outcomes[i].as_bytes()));
        assert!(SECP256K1.verify_schnorr(&att.signatures[i], &msg, &public).is_ok());
    }
    assert_eq!(
        attestation_from_seeds(&a, "42", &[4u8; 32], &seeds(7, 10), &[5u8; 32]),
        Err(OracleError::RandomnessUnavailable)
    );
    assert_eq!(
        attestation_from_seeds(&a, "x", &[4u8; 32], &seeds(8, 10), &[5u8; 32]),
        Err(OracleError::OutcomeNotNumeric)
    );
}

#[test]
fn attestation_with_mismatched_counts_is_malformed() {
    let a = build_announcement(EventType::Enum, "m", 1).unwrap();
    let mut att = build_attestation(&a, "win").unwrap();
    assert!(encode_attestation(&att).is_ok());
    att.outcomes.push("lose".to_string());
    assert_eq!(encode_attestation(&att), Err(CodecError::MalformedValue));
}

#[test]
fn announcement_hex_is_its_tlv_encoding() {
    let (a, text) = create_oracle_announcement("digit-decomposition", "hx", 5).unwrap();
    assert_eq!(text, hex::encode(encode_announcement(&a)));
}

#[test]
fn created_digit_announcement_attests_forty_two() {
    let (_, text) = create_oracle_announcement("digit-decomposition", "test-event-001", 1640995200).unwrap();
    let (att, _) = create_oracle_attestation(&text, "42").unwrap();
    assert_eq!(att.outcomes, vec!["0", "1", "0", "1", "0", "1", "0", "0"]);
    assert_eq!(att.signatures.len(), 8);
    assert_eq!(att.event_id, "test-event-001");
    assert!(matches!(create_oracle_attestation(&text, "abc"), Err(OracleError::OutcomeNotNumeric)));
}
