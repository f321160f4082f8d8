//! Encoding and decoding of each message kind.

use vstd::prelude::*;
use dlc_messages::{AcceptDlc, OfferDlc, SignDlc};
use dlc_messages::oracle_msgs::{OracleAnnouncement, OracleAttestation, OracleEvent, OracleInfo};
use dlc_messages::contract_msgs::{ContractDescriptor, ContractInfo};
use crate::kind::{
    EncodingStyle, MessageKind, spec_style, spec_type_id, OFFER_TYPE_ID, ACCEPT_TYPE_ID,
    SIGN_TYPE_ID,
};
use crate::convert::{dlc_event_wf, event_shape};
use crate::frame::{frame, lemma_frame_round_trip, spec_body_of, spec_framed, spec_leading_id};
use crate::dlc::{
    accept_body_of, announcement_tlv_of, attestation_tlv_of,
    contract_descriptor_of, contract_info_of, offer_body_of, oracle_event_of,
    oracle_info_of, sign_body_of, read_accept, read_announcement_tlv,
    read_attestation_tlv, read_contract_descriptor, read_contract_info, read_offer,
    read_oracle_event, read_oracle_info, read_sign, write_accept, write_announcement_tlv,
    write_attestation_tlv, write_contract_descriptor, write_contract_info, write_offer,
    write_oracle_event, write_oracle_info, write_sign, accept_bytes, announcement_tlv_bytes,
    attestation_counts, attestation_outcome_count, attestation_signature_count,
    attestation_tlv_bytes, contract_descriptor_bytes, contract_info_bytes, offer_bytes,
    oracle_event_bytes, oracle_info_bytes, sign_bytes,
};

verus! {

/// A structured message value of one of the nine kinds.
pub enum Message {
    Offer(OfferDlc),
    Accept(AcceptDlc),
    Sign(SignDlc),
    OracleAnnouncement(OracleAnnouncement),
    OracleAttestation(OracleAttestation),
    OracleEvent(OracleEvent),
    OracleInfo(OracleInfo),
    ContractInfo(ContractInfo),
    ContractDescriptor(ContractDescriptor),
}

/// Why an encoding or a decoding failed.
#[derive(Clone, Copy, Debug, PartialEq, Eq, Structural)]
pub enum CodecError {
    /// The value could not be mapped onto the kind's wire form.
    MalformedValue,
    /// The bytes are too short for the kind or break one of its invariants.
    TruncatedOrInvalidBytes,
    /// No kind in the detection order accepted the bytes.
    UnrecognizedMessage,
    /// The text is not an even number of hexadecimal digits.
    InvalidHex,
}

/// The kind of a message value.
pub open spec fn spec_kind_of(m: Message) -> MessageKind {
    match m {
        Message::Offer(_) => MessageKind::Offer,
        Message::Accept(_) => MessageKind::Accept,
        Message::Sign(_) => MessageKind::Sign,
        Message::OracleAnnouncement(_) => MessageKind::OracleAnnouncement,
        Message::OracleAttestation(_) => MessageKind::OracleAttestation,
        Message::OracleEvent(_) => MessageKind::OracleEvent,
        Message::OracleInfo(_) => MessageKind::OracleInfo,
        Message::ContractInfo(_) => MessageKind::ContractInfo,
        Message::ContractDescriptor(_) => MessageKind::ContractDescriptor,
    }
}

/// What `decode` of a kind reads from the bytes, if it accepts them:
/// fixed-prefixed kinds read a body whose prefix was already stripped, TLV
/// kinds read the whole record, component kinds read a bare body.
pub open spec fn spec_decoded(k: MessageKind, b: Seq<u8>) -> Option<Message> {
    match k {
        MessageKind::Offer => match offer_body_of(b) {
            Some(v) => Some(Message::Offer(v)),
            None => None,
        },
        MessageKind::Accept => match accept_body_of(b) {
            Some(v) => Some(Message::Accept(v)),
            None => None,
        },
        MessageKind::Sign => match sign_body_of(b) {
            Some(v) => Some(Message::Sign(v)),
            None => None,
        },
        MessageKind::OracleAnnouncement => match announcement_tlv_of(b) {
            Some(v) => Some(Message::OracleAnnouncement(v)),
            None => None,
        },
        MessageKind::OracleAttestation => match attestation_tlv_of(b) {
            Some(v) => Some(Message::OracleAttestation(v)),
            None => None,
        },
        MessageKind::OracleEvent => match oracle_event_of(b) {
            Some(v) => Some(Message::OracleEvent(v)),
            None => None,
        },
        MessageKind::OracleInfo => match oracle_info_of(b) {
            Some(v) => Some(Message::OracleInfo(v)),
            None => None,
        },
        MessageKind::ContractInfo => match contract_info_of(b) {
            Some(v) => Some(Message::ContractInfo(v)),
            None => None,
        },
        MessageKind::ContractDescriptor => match contract_descriptor_of(b) {
            Some(v) => Some(Message::ContractDescriptor(v)),
            None => None,
        },
    }
}

impl Message {
    /// The kind of this message.
    pub fn kind(&self) -> (r: MessageKind)
        ensures
            r == spec_kind_of(*self),
    {
        match self {
            Message::Offer(_) => MessageKind::Offer,
            Message::Accept(_) => MessageKind::Accept,
            Message::Sign(_) => MessageKind::Sign,
            Message::OracleAnnouncement(_) => MessageKind::OracleAnnouncement,
            Message::OracleAttestation(_) => MessageKind::OracleAttestation,
            Message::OracleEvent(_) => MessageKind::OracleEvent,
            Message::OracleInfo(_) => MessageKind::OracleInfo,
            Message::ContractInfo(_) => MessageKind::ContractInfo,
            Message::ContractDescriptor(_) => MessageKind::ContractDescriptor,
        }
    }
}

/// The wire bytes of a message, when it has any: a fixed-prefixed kind is
/// its type id in big-endian order before the body; a TLV kind is one record
/// carrying its own tag; a component kind is its bare body. An oracle event
/// whose nonce count does not fit its descriptor, and an attestation whose
/// signatures and outcomes differ in number, have none. An event needs one
/// nonce for an enum descriptor and one per digit for a digit-decomposition
/// descriptor.
pub open spec fn spec_encoding(m: Message) -> Option<Seq<u8>> {
    match m {
        Message::Offer(v) => Some(spec_framed(OFFER_TYPE_ID, offer_bytes(v))),
        Message::Accept(v) => Some(spec_framed(ACCEPT_TYPE_ID, accept_bytes(v))),
        Message::Sign(v) => Some(spec_framed(SIGN_TYPE_ID, sign_bytes(v))),
        Message::OracleAnnouncement(v) => Some(announcement_tlv_bytes(v)),
        Message::OracleAttestation(v) => if attestation_signature_count(v)
            == attestation_outcome_count(v) {
            Some(attestation_tlv_bytes(v))
        } else {
            None
        },
        Message::OracleEvent(v) => if dlc_event_wf(v) {
            Some(oracle_event_bytes(v))
        } else {
            None
        },
        Message::OracleInfo(v) => Some(oracle_info_bytes(v)),
        Message::ContractInfo(v) => Some(contract_info_bytes(v)),
        Message::ContractDescriptor(v) => Some(contract_descriptor_bytes(v)),
    }
}

/// Encodes a message in its kind's wire form; a value that breaks its
/// kind's invariant is reported as malformed.
pub fn encode(m: &Message) -> (r: Result<Vec<u8>, CodecError>)
    ensures
        match spec_encoding(*m) {
            Some(b) => r is Ok && r->Ok_0@ == b,
            None => r == Err::<Vec<u8>, CodecError>(CodecError::MalformedValue),
        },
{
    match m {
        Message::Offer(v) => Ok(frame(OFFER_TYPE_ID, write_offer(v).as_slice())),
        Message::Accept(v) => Ok(frame(ACCEPT_TYPE_ID, write_accept(v).as_slice())),
        Message::Sign(v) => Ok(frame(SIGN_TYPE_ID, write_sign(v).as_slice())),
        Message::OracleAnnouncement(v) => Ok(write_announcement_tlv(v)),
        Message::OracleAttestation(v) => {
            let (nsig, nout) = attestation_counts(v);
            if nsig == nout {
                Ok(write_attestation_tlv(v))
            } else {
                Err(CodecError::MalformedValue)
            }
        },
        Message::OracleEvent(v) => {
            let (count, digits) = event_shape(v);
            let wanted: usize = match digits {
                Some(n) => n as usize,
                None => 1,
            };
            if count == wanted {
                Ok(write_oracle_event(v))
            } else {
                Err(CodecError::MalformedValue)
            }
        },
        Message::OracleInfo(v) => Ok(write_oracle_info(v)),
        Message::ContractInfo(v) => Ok(write_contract_info(v)),
        Message::ContractDescriptor(v) => Ok(write_contract_descriptor(v)),
    }
}

/// A fixed-prefixed message's encoding leads with its kind's type id, and
/// what follows the prefix is exactly the body its writer produced, which
/// is what `decode` of that kind reads.
pub proof fn lemma_fixed_encoding_frames_body(m: Message)
    requires
        spec_style(spec_kind_of(m)) == EncodingStyle::FixedPrefixed,
    ensures
        spec_encoding(m) is Some,
        spec_leading_id(spec_encoding(m)->0) == spec_type_id(spec_kind_of(m)),
        spec_body_of(spec_encoding(m)->0) == match m {
            Message::Offer(v) => offer_bytes(v),
            Message::Accept(v) => accept_bytes(v),
            Message::Sign(v) => sign_bytes(v),
            _ => Seq::empty(),
        },
{
    match m {
        Message::Offer(v) => lemma_frame_round_trip(OFFER_TYPE_ID, offer_bytes(v)),
        Message::Accept(v) => lemma_frame_round_trip(ACCEPT_TYPE_ID, accept_bytes(v)),
        Message::Sign(v) => lemma_frame_round_trip(SIGN_TYPE_ID, sign_bytes(v)),
        _ => {},
    }
}

/// Decodes bytes as the given kind.
///
/// For a fixed-prefixed kind the bytes are the body, its type id already
/// stripped; for a TLV kind they are the whole record; for a component kind
/// the bare body.
pub fn decode(k: MessageKind, b: &[u8]) -> (r: Result<Message, CodecError>)
    ensures
        match spec_decoded(k, b@) {
            Some(m) => r == Ok::<Message, CodecError>(m),
            None => r == Err::<Message, CodecError>(CodecError::TruncatedOrInvalidBytes),
        },
        r is Ok ==> spec_kind_of(r->Ok_0) == k,
        r is Err ==> r == Err::<Message, CodecError>(CodecError::TruncatedOrInvalidBytes),
{
    match k {
        MessageKind::Offer => match read_offer(b) {
            Ok(v) => Ok(Message::Offer(v)),
            Err(_) => Err(CodecError::TruncatedOrInvalidBytes),
        },
        MessageKind::Accept => match read_accept(b) {
            Ok(v) => Ok(Message::Accept(v)),
            Err(_) => Err(CodecError::TruncatedOrInvalidBytes),
        },
        MessageKind::Sign => match read_sign(b) {
            Ok(v) => Ok(Message::Sign(v)),
            Err(_) => Err(CodecError::TruncatedOrInvalidBytes),
        },
        MessageKind::OracleAnnouncement => match read_announcement_tlv(b) {
            Ok(v) => Ok(Message::OracleAnnouncement(v)),
            Err(_) => Err(CodecError::TruncatedOrInvalidBytes),
        },
        MessageKind::OracleAttestation => match read_attestation_tlv(b) {
            Ok(v) => Ok(Message::OracleAttestation(v)),
            Err(_) => Err(CodecError::TruncatedOrInvalidBytes),
        },
        MessageKind::OracleEvent => match read_oracle_event(b) {
            Ok(v) => Ok(Message::OracleEvent(v)),
            Err(_) => Err(CodecError::TruncatedOrInvalidBytes),
        },
        MessageKind::OracleInfo => match read_oracle_info(b) {
            Ok(v) => Ok(Message::OracleInfo(v)),
            Err(_) => Err(CodecError::TruncatedOrInvalidBytes),
        },
        MessageKind::ContractInfo => match read_contract_info(b) {
            Ok(v) => Ok(Message::ContractInfo(v)),
            Err(_) => Err(CodecError::TruncatedOrInvalidBytes),
        },
        MessageKind::ContractDescriptor => match read_contract_descriptor(b) {
            Ok(v) => Ok(Message::ContractDescriptor(v)),
            Err(_) => Err(CodecError::TruncatedOrInvalidBytes),
        },
    }
}

} // verus!
