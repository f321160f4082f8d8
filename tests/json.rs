use dlc_compat::codec::{encode, Message};
use dlc_compat::json::{message_from_json, serialize_message, validate_message, JsonError};
use dlc_compat::kind::MessageKind;
use dlc_compat::oracle::{announcement_to_dlc, build_announcement, event_to_dlc, EventType};
use serde_json::Value;

#[test]
fn announcement_document_serializes_to_its_tlv_bytes() {
    let a = announcement_to_dlc(&build_announcement(EventType::Enum, "doc", 10).unwrap());
    let doc = serde_json::to_value(&a).unwrap();
    let text = serialize_message("oracle-announcement", &doc).unwrap();
    assert_eq!(text, hex::encode(encode(&Message::OracleAnnouncement(a)).unwrap()));
}

#[test]
fn event_document_serializes_to_its_bare_body() {
    let e = event_to_dlc(&build_announcement(EventType::DigitDecomposition, "doc", 10).unwrap().event);
    let doc = serde_json::to_value(&e).unwrap();
    let text = serialize_message("oracle-event", &doc).unwrap();
    assert_eq!(text, hex::encode(encode(&Message::OracleEvent(e)).unwrap()));
}

#[test]
fn unknown_kind_is_unsupported() {
    assert!(matches!(serialize_message("channel", &Value::Null), Err(JsonError::UnsupportedKind)));
    assert!(matches!(validate_message("channel", &Value::Null), Err(JsonError::UnsupportedKind)));
}

#[test]
fn wrong_document_is_invalid() {
    assert!(matches!(serialize_message("offer", &Value::Null), Err(JsonError::InvalidDocument(_))));
    assert!(matches!(validate_message("oracle-event", &Value::Bool(true)), Err(JsonError::InvalidDocument(_))));
}

#[test]
fn valid_document_names_its_kind() {
    let a = announcement_to_dlc(&build_announcement(EventType::Enum, "v", 1).unwrap());
    let doc = serde_json::to_value(&a).unwrap();
    assert_eq!(validate_message("oracle-announcement", &doc).unwrap(), MessageKind::OracleAnnouncement);
    assert!(matches!(
        message_from_json(MessageKind::OracleAnnouncement, &doc),
        Ok(Message::OracleAnnouncement(_))
    ));
    assert!(validate_message("oracle-attestation", &doc).is_err());
}

#[test]
fn event_document_with_wrong_nonce_count_is_malformed() {
    let mut e = event_to_dlc(&build_announcement(EventType::Enum, "doc", 10).unwrap().event);
    e.oracle_nonces.clear();
    let doc = serde_json::to_value(&e).unwrap();
    assert!(matches!(
        validate_message("oracle-event", &doc),
        Err(JsonError::Codec(dlc_compat::codec::CodecError::MalformedValue))
    ));
    assert!(matches!(
        serialize_message("oracle-event", &doc),
        Err(JsonError::Codec(dlc_compat::codec::CodecError::MalformedValue))
    ));
}
