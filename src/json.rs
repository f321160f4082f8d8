//! Structured message values from their JSON documents, and the
//! `serialize` and `validate` operations built on them.

use vstd::prelude::*;
use dlc_messages::{AcceptDlc, OfferDlc, SignDlc};
use dlc_messages::oracle_msgs::{OracleAnnouncement, OracleAttestation, OracleEvent, OracleInfo};
use dlc_messages::contract_msgs::{ContractDescriptor, ContractInfo};
use serde_json::Value;
use crate::kind::{MessageKind, spec_kind_named};
use crate::codec::{encode, spec_encoding, CodecError, Message, spec_kind_of};
use crate::hexstr::{encode_hex, hex_text};

verus! {

/// `Value`, declared opaque: values of it are only carried through.
#[verifier::external_type_specification]
#[verifier::external_body]
pub struct ExValue(Value);

/// `serde_json::Error`, declared opaque: values of it are only carried through.
#[verifier::external_type_specification]
#[verifier::external_body]
pub struct ExJsonError(serde_json::Error);

/// Why a JSON document could not be serialized or validated.
#[derive(Debug)]
pub enum JsonError {
    /// The kind name is none of the nine.
    UnsupportedKind,
    /// The document does not map onto the kind's fields.
    InvalidDocument(serde_json::Error),
    /// The value could not be encoded.
    Codec(CodecError),
}

/// The `OfferDlc` that `serde_json::from_value` reads from a document, if any.
pub uninterp spec fn offer_of_json(v: Value) -> Option<OfferDlc>;

/// The `AcceptDlc` that `serde_json::from_value` reads from a document, if any.
pub uninterp spec fn accept_of_json(v: Value) -> Option<AcceptDlc>;

/// The `SignDlc` that `serde_json::from_value` reads from a document, if any.
pub uninterp spec fn sign_of_json(v: Value) -> Option<SignDlc>;

/// The `OracleAnnouncement` that `serde_json::from_value` reads from a document, if any.
pub uninterp spec fn announcement_of_json(v: Value) -> Option<OracleAnnouncement>;

/// The `OracleAttestation` that `serde_json::from_value` reads from a document, if any.
pub uninterp spec fn attestation_of_json(v: Value) -> Option<OracleAttestation>;

/// The `OracleEvent` that `serde_json::from_value` reads from a document, if any.
pub uninterp spec fn oracle_event_of_json(v: Value) -> Option<OracleEvent>;

/// The `OracleInfo` that `serde_json::from_value` reads from a document, if any.
pub uninterp spec fn oracle_info_of_json(v: Value) -> Option<OracleInfo>;

/// The `ContractInfo` that `serde_json::from_value` reads from a document, if any.
pub uninterp spec fn contract_info_of_json(v: Value) -> Option<ContractInfo>;

/// The `ContractDescriptor` that `serde_json::from_value` reads from a document, if any.
pub uninterp spec fn contract_descriptor_of_json(v: Value) -> Option<ContractDescriptor>;

/// The message a JSON document denotes as a kind, if it maps onto the
/// kind's fields.
pub open spec fn spec_message_of_json(k: MessageKind, v: Value) -> Option<Message> {
    match k {
        MessageKind::Offer => match offer_of_json(v) {
            Some(m) => Some(Message::Offer(m)),
            None => None,
        },
        MessageKind::Accept => match accept_of_json(v) {
            Some(m) => Some(Message::Accept(m)),
            None => None,
        },
        MessageKind::Sign => match sign_of_json(v) {
            Some(m) => Some(Message::Sign(m)),
            None => None,
        },
        MessageKind::OracleAnnouncement => match announcement_of_json(v) {
            Some(m) => Some(Message::OracleAnnouncement(m)),
            None => None,
        },
        MessageKind::OracleAttestation => match attestation_of_json(v) {
            Some(m) => Some(Message::OracleAttestation(m)),
            None => None,
        },
        MessageKind::OracleEvent => match oracle_event_of_json(v) {
            Some(m) => Some(Message::OracleEvent(m)),
            None => None,
        },
        MessageKind::OracleInfo => match oracle_info_of_json(v) {
            Some(m) => Some(Message::OracleInfo(m)),
            None => None,
        },
        MessageKind::ContractInfo => match contract_info_of_json(v) {
            Some(m) => Some(Message::ContractInfo(m)),
            None => None,
        },
        MessageKind::ContractDescriptor => match contract_descriptor_of_json(v) {
            Some(m) => Some(Message::ContractDescriptor(m)),
            None => None,
        },
    }
}

/// Relies on `serde_json::from_value::<OfferDlc>`.
#[verifier::external_body]
fn offer_from_json(v: &Value) -> (r: Result<OfferDlc, serde_json::Error>)
    ensures
        match offer_of_json(*v) {
            Some(m) => r == Ok::<OfferDlc, serde_json::Error>(m),
            None => r is Err,
        },
{
    serde_json::from_value(v.clone())
}

/// Relies on `serde_json::from_value::<AcceptDlc>`.
#[verifier::external_body]
fn accept_from_json(v: &Value) -> (r: Result<AcceptDlc, serde_json::Error>)
    ensures
        match accept_of_json(*v) {
            Some(m) => r == Ok::<AcceptDlc, serde_json::Error>(m),
            None => r is Err,
        },
{
    serde_json::from_value(v.clone())
}

/// Relies on `serde_json::from_value::<SignDlc>`.
#[verifier::external_body]
fn sign_from_json(v: &Value) -> (r: Result<SignDlc, serde_json::Error>)
    ensures
        match sign_of_json(*v) {
            Some(m) => r == Ok::<SignDlc, serde_json::Error>(m),
            None => r is Err,
        },
{
    serde_json::from_value(v.clone())
}

/// Relies on `serde_json::from_value::<OracleAnnouncement>`.
#[verifier::external_body]
fn announcement_from_json(v: &Value) -> (r: Result<OracleAnnouncement, serde_json::Error>)
    ensures
        match announcement_of_json(*v) {
            Some(m) => r == Ok::<OracleAnnouncement, serde_json::Error>(m),
            None => r is Err,
        },
{
    serde_json::from_value(v.clone())
}

/// Relies on `serde_json::from_value::<OracleAttestation>`.
#[verifier::external_body]
fn attestation_from_json(v: &Value) -> (r: Result<OracleAttestation, serde_json::Error>)
    ensures
        match attestation_of_json(*v) {
            Some(m) => r == Ok::<OracleAttestation, serde_json::Error>(m),
            None => r is Err,
        },
{
    serde_json::from_value(v.clone())
}

/// Relies on `serde_json::from_value::<OracleEvent>`.
#[verifier::external_body]
fn oracle_event_from_json(v: &Value) -> (r: Result<OracleEvent, serde_json::Error>)
    ensures
        match oracle_event_of_json(*v) {
            Some(m) => r == Ok::<OracleEvent, serde_json::Error>(m),
            None => r is Err,
        },
{
    serde_json::from_value(v.clone())
}

/// Relies on `serde_json::from_value::<OracleInfo>`.
#[verifier::external_body]
fn oracle_info_from_json(v: &Value) -> (r: Result<OracleInfo, serde_json::Error>)
    ensures
        match oracle_info_of_json(*v) {
            Some(m) => r == Ok::<OracleInfo, serde_json::Error>(m),
            None => r is Err,
        },
{
    serde_json::from_value(v.clone())
}

/// Relies on `serde_json::from_value::<ContractInfo>`.
#[verifier::external_body]
fn contract_info_from_json(v: &Value) -> (r: Result<ContractInfo, serde_json::Error>)
    ensures
        match contract_info_of_json(*v) {
            Some(m) => r == Ok::<ContractInfo, serde_json::Error>(m),
            None => r is Err,
        },
{
    serde_json::from_value(v.clone())
}

/// Relies on `serde_json::from_value::<ContractDescriptor>`.
#[verifier::external_body]
fn contract_descriptor_from_json(v: &Value) -> (r: Result<ContractDescriptor, serde_json::Error>)
    ensures
        match contract_descriptor_of_json(*v) {
            Some(m) => r == Ok::<ContractDescriptor, serde_json::Error>(m),
            None => r is Err,
        },
{
    serde_json::from_value(v.clone())
}

/// The structured value of a kind, read from its JSON document.
pub fn message_from_json(k: MessageKind, v: &Value) -> (r: Result<Message, serde_json::Error>)
    ensures
        r is Ok == spec_message_of_json(k, *v) is Some,
        r is Ok ==> r->Ok_0 == spec_message_of_json(k, *v)->0 && spec_kind_of(r->Ok_0) == k,
{
    match k {
        MessageKind::Offer => match offer_from_json(v) {
            Ok(m) => Ok(Message::Offer(m)),
            Err(e) => Err(e),
        },
        MessageKind::Accept => match accept_from_json(v) {
            Ok(m) => Ok(Message::Accept(m)),
            Err(e) => Err(e),
        },
        MessageKind::Sign => match sign_from_json(v) {
            Ok(m) => Ok(Message::Sign(m)),
            Err(e) => Err(e),
        },
        MessageKind::OracleAnnouncement => match announcement_from_json(v) {
            Ok(m) => Ok(Message::OracleAnnouncement(m)),
            Err(e) => Err(e),
        },
        MessageKind::OracleAttestation => match attestation_from_json(v) {
            Ok(m) => Ok(Message::OracleAttestation(m)),
            Err(e) => Err(e),
        },
        MessageKind::OracleEvent => match oracle_event_from_json(v) {
            Ok(m) => Ok(Message::OracleEvent(m)),
            Err(e) => Err(e),
        },
        MessageKind::OracleInfo => match oracle_info_from_json(v) {
            Ok(m) => Ok(Message::OracleInfo(m)),
            Err(e) => Err(e),
        },
        MessageKind::ContractInfo => match contract_info_from_json(v) {
            Ok(m) => Ok(Message::ContractInfo(m)),
            Err(e) => Err(e),
        },
        MessageKind::ContractDescriptor => match contract_descriptor_from_json(v) {
            Ok(m) => Ok(Message::ContractDescriptor(m)),
            Err(e) => Err(e),
        },
    }
}

/// Serializes the JSON document of the named kind to the hexadecimal text
/// of its wire bytes.
pub fn serialize_message(kind_name: &str, v: &Value) -> (r: Result<String, JsonError>)
    ensures
        spec_kind_named(kind_name@) is None <==> r matches Err(JsonError::UnsupportedKind),
        spec_kind_named(kind_name@) is Some ==> match spec_message_of_json(
            spec_kind_named(kind_name@)->0,
            *v,
        ) {
            None => r matches Err(JsonError::InvalidDocument(_)),
            Some(m) => match spec_encoding(m) {
                Some(b) => r is Ok && r->Ok_0@ == hex_text(b),
                None => r matches Err(JsonError::Codec(CodecError::MalformedValue)),
            },
        },
{
    let k = match MessageKind::from_name(kind_name) {
        Some(k) => k,
        None => return Err(JsonError::UnsupportedKind),
    };
    let m = match message_from_json(k, v) {
        Ok(m) => m,
        Err(e) => return Err(JsonError::InvalidDocument(e)),
    };
    match encode(&m) {
        Ok(b) => Ok(encode_hex(b.as_slice())),
        Err(e) => Err(JsonError::Codec(e)),
    }
}

/// Checks that a JSON document maps onto the named kind's fields and that
/// the value keeps the kind's invariant: it succeeds exactly when
/// `serialize_message` does, and fails in the same way.
pub fn validate_message(kind_name: &str, v: &Value) -> (r: Result<MessageKind, JsonError>)
    ensures
        spec_kind_named(kind_name@) is None <==> r matches Err(JsonError::UnsupportedKind),
        spec_kind_named(kind_name@) is Some ==> match spec_message_of_json(
            spec_kind_named(kind_name@)->0,
            *v,
        ) {
            None => r matches Err(JsonError::InvalidDocument(_)),
            Some(m) => match spec_encoding(m) {
                Some(_) => r == Ok::<MessageKind, JsonError>(spec_kind_named(kind_name@)->0),
                None => r matches Err(JsonError::Codec(CodecError::MalformedValue)),
            },
        },
{
    let k = match MessageKind::from_name(kind_name) {
        Some(k) => k,
        None => return Err(JsonError::UnsupportedKind),
    };
    let m = match message_from_json(k, v) {
        Ok(m) => m,
        Err(e) => return Err(JsonError::InvalidDocument(e)),
    };
    match encode(&m) {
        Ok(_) => Ok(k),
        Err(e) => Err(JsonError::Codec(e)),
    }
}

} // verus!
