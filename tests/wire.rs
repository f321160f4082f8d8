use dlc_compat::cascade::{deserialize_hex, detect_and_decode, first_accepted, probe_plan, Probe};
use dlc_compat::codec::{decode, encode, CodecError, Message};
use dlc_compat::frame::{body_of, frame, leading_id};
use dlc_compat::kind::{
    str_equal, EncodingStyle, MessageKind, ACCEPT_TYPE_ID, ANNOUNCEMENT_TYPE_ID,
    ATTESTATION_TYPE_ID, OFFER_TYPE_ID, SIGN_TYPE_ID,
};
use dlc_compat::oracle::{
    announcement_to_dlc, build_announcement, create_oracle_announcement, event_to_dlc, EventType,
};
use dlc_messages::oracle_msgs::{
    DigitDecompositionEventDescriptor, EventDescriptor, OracleInfo, SingleOracleInfo,
};
use lightning::util::ser::Writeable;

const ALL_KINDS: [MessageKind; 9] = [
    MessageKind::Offer,
    MessageKind::Accept,
    MessageKind::Sign,
    MessageKind::OracleAnnouncement,
    MessageKind::OracleAttestation,
    MessageKind::OracleEvent,
    MessageKind::OracleInfo,
    MessageKind::ContractInfo,
    MessageKind::ContractDescriptor,
];

fn kind_of(r: &Result<Message, CodecError>) -> Option<MessageKind> {
    r.as_ref().ok().map(|m| m.kind())
}

#[test]
fn kind_names_lead_back_to_their_kind() {
    for k in ALL_KINDS {
        assert_eq!(MessageKind::from_name(k.name()), Some(k));
    }
    assert_eq!(MessageKind::from_name("oracle-announcement"), Some(MessageKind::OracleAnnouncement));
    assert_eq!(MessageKind::from_name("nonsense"), None);
    assert_eq!(MessageKind::from_name(""), None);
}

#[test]
fn type_ids_and_styles() {
    assert_eq!(MessageKind::Offer.type_id(), Some(42778));
    assert_eq!(MessageKind::Accept.type_id(), Some(42780));
    assert_eq!(MessageKind::Sign.type_id(), Some(42782));
    assert_eq!(MessageKind::OracleAnnouncement.type_id(), Some(55332));
    assert_eq!(MessageKind::OracleAttestation.type_id(), Some(55400));
    assert_eq!(MessageKind::ContractInfo.type_id(), None);
    assert_eq!(MessageKind::Offer.style(), EncodingStyle::FixedPrefixed);
    assert_eq!(MessageKind::OracleAttestation.style(), EncodingStyle::Tlv);
    assert_eq!(MessageKind::OracleEvent.style(), EncodingStyle::Bare);
    for id in [OFFER_TYPE_ID, ACCEPT_TYPE_ID, SIGN_TYPE_ID, ANNOUNCEMENT_TYPE_ID, ATTESTATION_TYPE_ID] {
        assert_eq!(MessageKind::from_type_id(id).and_then(|k| k.type_id()), Some(id));
    }
    assert_eq!(MessageKind::from_type_id(1), None);
}

#[test]
fn string_equality() {
    assert!(str_equal("abc", "abc"));
    assert!(!str_equal("abc", "abd"));
    assert!(!str_equal("abc", "ab"));
    assert!(str_equal("", ""));
}

#[test]
fn frame_writes_big_endian_id_then_body() {
    let b = frame(0xA71A, &[1, 2, 3]);
    assert_eq!(b, vec![0xA7, 0x1A, 1, 2, 3]);
    assert_eq!(leading_id(&b), Some(42778));
    assert_eq!(body_of(&b), &[1, 2, 3]);
    assert_eq!(frame(0xD824, &[]), vec![0xD8, 0x24]);
    assert_eq!(leading_id(&[7]), None);
    assert_eq!(leading_id(&[]), None);
}

#[test]
fn first_accepted_picks_the_earliest_success() {
    assert_eq!(first_accepted(&[false, true, true]), Some(1));
    assert_eq!(first_accepted(&[true, false]), Some(0));
    assert_eq!(first_accepted(&[false, false]), None);
    assert_eq!(first_accepted(&[]), None);
}

#[test]
fn plan_for_known_and_unknown_prefixes() {
    let head = [Probe::AnnouncementTlv, Probe::AttestationTlv];
    let headerless = [Probe::ContractInfoBare, Probe::OracleInfoBare, Probe::OracleEventBare];
    assert_eq!(probe_plan(&[0xA7, 0x1A, 0]), [&head[..], &[Probe::OfferBody]].concat());
    assert_eq!(probe_plan(&[0xA7, 0x1C]), [&head[..], &[Probe::AcceptBody]].concat());
    assert_eq!(probe_plan(&[0xA7, 0x1E]), [&head[..], &[Probe::SignBody]].concat());
    assert_eq!(
        probe_plan(&[0xD8, 0x24, 9]),
        [&head[..], &[Probe::AnnouncementTlv, Probe::AnnouncementBody]].concat()
    );
    assert_eq!(
        probe_plan(&[0xD8, 0x68, 9]),
        [&head[..], &[Probe::AttestationTlv, Probe::AttestationBody]].concat()
    );
    assert_eq!(probe_plan(&[0x00, 0x01, 5]), [&head[..], &headerless[..]].concat());
    assert_eq!(probe_plan(&[0x00, 0x01]), [&head[..], &headerless[..]].concat());
    assert_eq!(probe_plan(&[0x05]), [&head[..], &headerless[..]].concat());
    assert_eq!(probe_plan(&[]), [&head[..], &headerless[..]].concat());
}

#[test]
fn empty_buffer_is_unrecognized() {
    assert!(matches!(detect_and_decode(&[]), Err(CodecError::UnrecognizedMessage)));
}

#[test]
fn known_prefix_with_bad_body_is_unrecognized() {
    assert!(matches!(detect_and_decode(&[0xA7, 0x1A, 0x00]), Err(CodecError::UnrecognizedMessage)));
}

#[test]
fn short_bytes_fail_to_decode_as_each_kind() {
    for k in ALL_KINDS {
        assert!(matches!(decode(k, &[]), Err(CodecError::TruncatedOrInvalidBytes)));
    }
}

#[test]
fn announcement_round_trips_through_the_codec() {
    let a = build_announcement(EventType::DigitDecomposition, "btc-close", 1700000000).unwrap();
    let dlc = announcement_to_dlc(&a);
    let bytes = encode(&Message::OracleAnnouncement(dlc.clone())).unwrap();
    match decode(MessageKind::OracleAnnouncement, &bytes) {
        Ok(Message::OracleAnnouncement(back)) => assert_eq!(back, dlc),
        _ => panic!("announcement did not decode"),
    }
}

#[test]
fn event_and_oracle_info_round_trip_through_the_codec() {
    let a = build_announcement(EventType::Enum, "match-1", 1650000000).unwrap();
    let event = event_to_dlc(&a.event);
    let bytes = encode(&Message::OracleEvent(event.clone())).unwrap();
    assert_eq!(bytes, event.encode());
    match decode(MessageKind::OracleEvent, &bytes) {
        Ok(Message::OracleEvent(back)) => assert_eq!(back, event),
        _ => panic!("event did not decode"),
    }
    let info = OracleInfo::Single(SingleOracleInfo { oracle_announcement: announcement_to_dlc(&a) });
    let bytes = encode(&Message::OracleInfo(info.clone())).unwrap();
    match decode(MessageKind::OracleInfo, &bytes) {
        Ok(Message::OracleInfo(back)) => assert_eq!(back, info),
        _ => panic!("oracle info did not decode"),
    }
}

#[test]
fn announcement_tlv_is_detected_as_announcement() {
    let a = build_announcement(EventType::Enum, "e", 1).unwrap();
    let bytes = encode(&Message::OracleAnnouncement(announcement_to_dlc(&a))).unwrap();
    assert_eq!(kind_of(&detect_and_decode(&bytes)), Some(MessageKind::OracleAnnouncement));
}

#[test]
fn legacy_announcement_body_is_detected_as_announcement() {
    let a = build_announcement(EventType::Enum, "legacy", 5).unwrap();
    let dlc = announcement_to_dlc(&a);
    let bytes = frame(ANNOUNCEMENT_TYPE_ID, &dlc.encode());
    match detect_and_decode(&bytes) {
        Ok(Message::OracleAnnouncement(back)) => assert_eq!(back, dlc),
        _ => panic!("legacy announcement was not detected"),
    }
}

#[test]
fn headerless_event_is_detected_as_event() {
    let a = build_announcement(EventType::Enum, "headerless", 7).unwrap();
    let bytes = event_to_dlc(&a.event).encode();
    assert_eq!(MessageKind::from_type_id(leading_id(&bytes).unwrap()), None);
    assert_eq!(kind_of(&detect_and_decode(&bytes)), Some(MessageKind::OracleEvent));
}

#[test]
fn created_announcement_decodes_back_through_the_cascade() {
    let (_, text) = create_oracle_announcement("enum", "test-event-001", 1640995200).unwrap();
    match deserialize_hex(&text) {
        Ok(Message::OracleAnnouncement(a)) => {
            assert_eq!(a.oracle_event.event_id, "test-event-001");
            assert_eq!(a.oracle_event.event_maturity_epoch, 1640995200);
        }
        _ => panic!("created announcement was not detected"),
    }
}

#[test]
fn text_that_is_not_hex_is_refused() {
    assert!(matches!(deserialize_hex("zz"), Err(CodecError::InvalidHex)));
    assert!(matches!(deserialize_hex("abc"), Err(CodecError::InvalidHex)));
    assert!(matches!(deserialize_hex(""), Err(CodecError::UnrecognizedMessage)));
}

#[test]
fn hex_text_in_either_case_is_read() {
    let a = build_announcement(EventType::Enum, "case", 2).unwrap();
    let bytes = encode(&Message::OracleAnnouncement(announcement_to_dlc(&a))).unwrap();
    let upper = hex::encode_upper(&bytes);
    assert_eq!(kind_of(&deserialize_hex(&upper)), Some(MessageKind::OracleAnnouncement));
}

#[test]
fn attestation_round_trips_through_the_codec() {
    let a = build_announcement(EventType::DigitDecomposition, "rt", 3).unwrap();
    let att = dlc_compat::oracle::build_attestation(&a, "200").unwrap();
    let dlc = dlc_compat::oracle::attestation_to_dlc(&att);
    let bytes = encode(&Message::OracleAttestation(dlc.clone())).unwrap();
    match decode(MessageKind::OracleAttestation, &bytes) {
        Ok(Message::OracleAttestation(back)) => assert_eq!(back, dlc),
        _ => panic!("attestation did not decode"),
    }
    assert_eq!(kind_of(&detect_and_decode(&bytes)), Some(MessageKind::OracleAttestation));
}

#[test]
fn announcement_read_back_from_its_form_is_unchanged() {
    let a = build_announcement(EventType::DigitDecomposition, "conv", 4).unwrap();
    let back = dlc_compat::oracle::announcement_from_dlc(announcement_to_dlc(&a));
    assert_eq!(back, a);
}

#[test]
fn event_with_wrong_nonce_count_is_malformed() {
    let a = build_announcement(EventType::DigitDecomposition, "bad", 1).unwrap();
    let mut event = event_to_dlc(&a.event);
    assert!(encode(&Message::OracleEvent(event.clone())).is_ok());
    event.oracle_nonces.pop();
    assert!(matches!(encode(&Message::OracleEvent(event)), Err(CodecError::MalformedValue)));
}

#[test]
fn signed_digit_event_needs_one_nonce_per_digit() {
    let a = build_announcement(EventType::DigitDecomposition, "signed", 1).unwrap();
    let mut event = event_to_dlc(&a.event);
    event.event_descriptor = EventDescriptor::DigitDecompositionEvent(DigitDecompositionEventDescriptor {
        base: 2,
        is_signed: true,
        unit: "BTCUSD".to_string(),
        precision: 0,
        nb_digits: 8,
    });
    assert!(encode(&Message::OracleEvent(event.clone())).is_ok());
    event.oracle_nonces.push(event.oracle_nonces[0]);
    assert!(matches!(encode(&Message::OracleEvent(event)), Err(CodecError::MalformedValue)));
}
