//! Detection of a message's kind from bytes alone.
//!
//! The detector runs an ordered list of probes and keeps the first that
//! accepts the buffer. The order is the tie-break between encodings whose
//! leading bytes can coincide.

use vstd::prelude::*;
use crate::kind::{
    MessageKind, OFFER_TYPE_ID, ACCEPT_TYPE_ID, SIGN_TYPE_ID, ANNOUNCEMENT_TYPE_ID,
    ATTESTATION_TYPE_ID,
};
use crate::frame::{body_of, leading_id, spec_body_of, spec_leading_id};
use crate::codec::{CodecError, Message, spec_decoded, spec_kind_of};
use crate::hexstr::{decode_hex, hex_bytes, is_hex_text};
use crate::dlc::{
    accept_body_of, announcement_body_of, announcement_tlv_of,
    attestation_body_of, attestation_tlv_of, contract_info_of, offer_body_of,
    oracle_event_of, oracle_info_of, sign_body_of, read_accept,
    read_announcement_body, read_announcement_tlv, read_attestation_body, read_attestation_tlv,
    read_contract_info, read_offer, read_oracle_event, read_oracle_info, read_sign,
};

verus! {

/// One decode attempt: a kind and where in the buffer its reader starts.
#[derive(Clone, Copy, Debug, PartialEq, Eq, Structural)]
pub enum Probe {
    /// The whole buffer as an oracle-announcement TLV record.
    AnnouncementTlv,
    /// The whole buffer as an oracle-attestation TLV record.
    AttestationTlv,
    /// The bytes after the prefix as an offer body.
    OfferBody,
    /// The bytes after the prefix as an accept body.
    AcceptBody,
    /// The bytes after the prefix as a sign body.
    SignBody,
    /// The bytes after the prefix as a legacy oracle-announcement body.
    AnnouncementBody,
    /// The bytes after the prefix as a legacy oracle-attestation body.
    AttestationBody,
    /// The whole buffer as a headerless contract info.
    ContractInfoBare,
    /// The whole buffer as a headerless oracle info.
    OracleInfoBare,
    /// The whole buffer as a headerless oracle event.
    OracleEventBare,
}

/// The kind a probe yields when it accepts.
pub open spec fn spec_probe_kind(p: Probe) -> MessageKind {
    match p {
        Probe::AnnouncementTlv | Probe::AnnouncementBody => MessageKind::OracleAnnouncement,
        Probe::AttestationTlv | Probe::AttestationBody => MessageKind::OracleAttestation,
        Probe::OfferBody => MessageKind::Offer,
        Probe::AcceptBody => MessageKind::Accept,
        Probe::SignBody => MessageKind::Sign,
        Probe::ContractInfoBare => MessageKind::ContractInfo,
        Probe::OracleInfoBare => MessageKind::OracleInfo,
        Probe::OracleEventBare => MessageKind::OracleEvent,
    }
}

/// Whether a probe reads the bytes after the two-byte prefix.
pub open spec fn spec_reads_body(p: Probe) -> bool {
    match p {
        Probe::OfferBody | Probe::AcceptBody | Probe::SignBody | Probe::AnnouncementBody
        | Probe::AttestationBody => true,
        _ => false,
    }
}

/// Whether a probe accepts the buffer `b`.
pub open spec fn spec_accepts(p: Probe, b: Seq<u8>) -> bool {
    if spec_reads_body(p) {
        b.len() >= 2 && {
            let body = spec_body_of(b);
            match p {
                Probe::OfferBody => (offer_body_of(body) is Some),
                Probe::AcceptBody => (accept_body_of(body) is Some),
                Probe::SignBody => (sign_body_of(body) is Some),
                Probe::AnnouncementBody => (announcement_body_of(body) is Some),
                _ => (attestation_body_of(body) is Some),
            }
        }
    } else {
        match p {
            Probe::AnnouncementTlv => (announcement_tlv_of(b) is Some),
            Probe::AttestationTlv => (attestation_tlv_of(b) is Some),
            Probe::ContractInfoBare => (contract_info_of(b) is Some),
            Probe::OracleInfoBare => (oracle_info_of(b) is Some),
            _ => (oracle_event_of(b) is Some),
        }
    }
}

/// What a probe reads from the buffer `b`, if it accepts it.
pub open spec fn spec_probe_value(p: Probe, b: Seq<u8>) -> Option<Message> {
    if spec_reads_body(p) && b.len() < 2 {
        None
    } else {
        let body = spec_body_of(b);
        match p {
            Probe::AnnouncementTlv => spec_decoded(MessageKind::OracleAnnouncement, b),
            Probe::AttestationTlv => spec_decoded(MessageKind::OracleAttestation, b),
            Probe::ContractInfoBare => spec_decoded(MessageKind::ContractInfo, b),
            Probe::OracleInfoBare => spec_decoded(MessageKind::OracleInfo, b),
            Probe::OracleEventBare => spec_decoded(MessageKind::OracleEvent, b),
            Probe::OfferBody => spec_decoded(MessageKind::Offer, body),
            Probe::AcceptBody => spec_decoded(MessageKind::Accept, body),
            Probe::SignBody => spec_decoded(MessageKind::Sign, body),
            Probe::AnnouncementBody => match announcement_body_of(body) {
                Some(v) => Some(Message::OracleAnnouncement(v)),
                None => None,
            },
            Probe::AttestationBody => match attestation_body_of(body) {
                Some(v) => Some(Message::OracleAttestation(v)),
                None => None,
            },
        }
    }
}

/// The headerless probes, in order.
pub open spec fn spec_headerless() -> Seq<Probe> {
    seq![Probe::ContractInfoBare, Probe::OracleInfoBare, Probe::OracleEventBare]
}

/// The probes run after the two TLV attempts, chosen by the leading id.
pub open spec fn spec_dispatch(lead: Option<u16>) -> Seq<Probe> {
    match lead {
        None => spec_headerless(),
        Some(id) => if id == OFFER_TYPE_ID {
            seq![Probe::OfferBody]
        } else if id == ACCEPT_TYPE_ID {
            seq![Probe::AcceptBody]
        } else if id == SIGN_TYPE_ID {
            seq![Probe::SignBody]
        } else if id == ANNOUNCEMENT_TYPE_ID {
            seq![Probe::AnnouncementTlv, Probe::AnnouncementBody]
        } else if id == ATTESTATION_TYPE_ID {
            seq![Probe::AttestationTlv, Probe::AttestationBody]
        } else {
            spec_headerless()
        },
    }
}

/// The full ordered list of probes for a buffer.
pub open spec fn spec_plan(b: Seq<u8>) -> Seq<Probe> {
    seq![Probe::AnnouncementTlv, Probe::AttestationTlv] + spec_dispatch(spec_leading_id(b))
}

/// The first index from `i` on whose outcome is true.
pub open spec fn spec_first_true(outcomes: Seq<bool>, i: int) -> Option<int>
    decreases outcomes.len() - i,
{
    if i < 0 || i >= outcomes.len() {
        None
    } else if outcomes[i] {
        Some(i)
    } else {
        spec_first_true(outcomes, i + 1)
    }
}

/// The outcome of every probe of a list on a buffer.
pub open spec fn spec_outcomes(ps: Seq<Probe>, b: Seq<u8>) -> Seq<bool> {
    Seq::new(ps.len(), |i: int| spec_accepts(ps[i], b))
}

/// The message the detector reads from a buffer, if any.
pub open spec fn spec_detected_message(b: Seq<u8>) -> Option<Message> {
    let ps = spec_plan(b);
    match spec_first_true(spec_outcomes(ps, b), 0) {
        Some(i) => spec_probe_value(ps[i], b),
        None => None,
    }
}

/// The kind the detector reports for a buffer, if any.
pub open spec fn spec_detected(b: Seq<u8>) -> Option<MessageKind> {
    let ps = spec_plan(b);
    match spec_first_true(spec_outcomes(ps, b), 0) {
        Some(i) => Some(spec_probe_kind(ps[i])),
        None => None,
    }
}

/// The index of the first accepted probe, given each probe's outcome in order.
pub fn first_accepted(outcomes: &[bool]) -> (r: Option<usize>)
    ensures
        match spec_first_true(outcomes@, 0) {
            Some(i) => r == Some(i as usize),
            None => r is None,
        },
{
    let mut i: usize = 0;
    while i < outcomes.len()
        invariant
            0 <= i <= outcomes@.len(),
            spec_first_true(outcomes@, 0) == spec_first_true(outcomes@, i as int),
        decreases outcomes@.len() - i,
    {
        if outcomes[i] {
            return Some(i);
        }
        i = i + 1;
    }
    None
}

/// The ordered probes for a buffer: the two TLV records first, then what
/// the leading id selects, or the headerless kinds when it selects nothing
/// or the buffer is shorter than two bytes.
pub fn probe_plan(b: &[u8]) -> (r: Vec<Probe>)
    ensures
        r@ == spec_plan(b@),
{
    let mut ps: Vec<Probe> = vec![Probe::AnnouncementTlv, Probe::AttestationTlv];
    let lead = leading_id(b);
    let headerless = match lead {
        None => true,
        Some(id) => {
            if id == OFFER_TYPE_ID {
                ps.push(Probe::OfferBody);
                false
            } else if id == ACCEPT_TYPE_ID {
                ps.push(Probe::AcceptBody);
                false
            } else if id == SIGN_TYPE_ID {
                ps.push(Probe::SignBody);
                false
            } else if id == ANNOUNCEMENT_TYPE_ID {
                ps.push(Probe::AnnouncementTlv);
                ps.push(Probe::AnnouncementBody);
                false
            } else if id == ATTESTATION_TYPE_ID {
                ps.push(Probe::AttestationTlv);
                ps.push(Probe::AttestationBody);
                false
            } else {
                true
            }
        },
    };
    if headerless {
        ps.push(Probe::ContractInfoBare);
        ps.push(Probe::OracleInfoBare);
        ps.push(Probe::OracleEventBare);
    }
    assert(ps@ =~= spec_plan(b@));
    ps
}

/// Runs one probe on a buffer.
pub fn run_probe(p: Probe, b: &[u8]) -> (r: Option<Message>)
    ensures
        r is Some == spec_accepts(p, b@),
        r is Some ==> spec_kind_of(r->0) == spec_probe_kind(p),
        r == spec_probe_value(p, b@),
{
    match p {
        Probe::AnnouncementTlv => match read_announcement_tlv(b) {
            Ok(v) => Some(Message::OracleAnnouncement(v)),
            Err(_) => None,
        },
        Probe::AttestationTlv => match read_attestation_tlv(b) {
            Ok(v) => Some(Message::OracleAttestation(v)),
            Err(_) => None,
        },
        Probe::ContractInfoBare => match read_contract_info(b) {
            Ok(v) => Some(Message::ContractInfo(v)),
            Err(_) => None,
        },
        Probe::OracleInfoBare => match read_oracle_info(b) {
            Ok(v) => Some(Message::OracleInfo(v)),
            Err(_) => None,
        },
        Probe::OracleEventBare => match read_oracle_event(b) {
            Ok(v) => Some(Message::OracleEvent(v)),
            Err(_) => None,
        },
        _ => {
            if b.len() < 2 {
                return None;
            }
            let body = body_of(b);
            match p {
                Probe::OfferBody => match read_offer(body) {
                    Ok(v) => Some(Message::Offer(v)),
                    Err(_) => None,
                },
                Probe::AcceptBody => match read_accept(body) {
                    Ok(v) => Some(Message::Accept(v)),
                    Err(_) => None,
                },
                Probe::SignBody => match read_sign(body) {
                    Ok(v) => Some(Message::Sign(v)),
                    Err(_) => None,
                },
                Probe::AnnouncementBody => match read_announcement_body(body) {
                    Ok(v) => Some(Message::OracleAnnouncement(v)),
                    Err(_) => None,
                },
                _ => match read_attestation_body(body) {
                    Ok(v) => Some(Message::OracleAttestation(v)),
                    Err(_) => None,
                },
            }
        },
    }
}

/// Detects the kind of an opaque buffer and decodes it: the first probe of
/// the plan that accepts wins, and `UnrecognizedMessage` comes exactly when
/// none does.
pub fn detect_and_decode(b: &[u8]) -> (r: Result<Message, CodecError>)
    ensures
        r is Ok <==> spec_detected(b@) is Some,
        r is Ok ==> Some(spec_kind_of(r->Ok_0)) == spec_detected(b@),
        r is Ok ==> Some(r->Ok_0) == spec_detected_message(b@),
        r is Err ==> r == Err::<Message, CodecError>(CodecError::UnrecognizedMessage),
{
    let ps = probe_plan(b);
    let ghost outcomes = spec_outcomes(ps@, b@);
    let mut i: usize = 0;
    while i < ps.len()
        invariant
            0 <= i <= ps@.len(),
            ps@ == spec_plan(b@),
            outcomes == spec_outcomes(ps@, b@),
            spec_first_true(outcomes, 0) == spec_first_true(outcomes, i as int),
        decreases ps@.len() - i,
    {
        match run_probe(ps[i], b) {
            Some(m) => {
                return Ok(m);
            },
            None => {},
        }
        i = i + 1;
    }
    Err(CodecError::UnrecognizedMessage)
}

/// Decodes hexadecimal text, then detects and decodes the bytes it denotes.
pub fn deserialize_hex(s: &str) -> (r: Result<Message, CodecError>)
    ensures
        !is_hex_text(s@) <==> r == Err::<Message, CodecError>(CodecError::InvalidHex),
        is_hex_text(s@) ==> (r is Ok <==> spec_detected(hex_bytes(s@)) is Some),
        r is Ok ==> Some(spec_kind_of(r->Ok_0)) == spec_detected(hex_bytes(s@)),
        r is Ok ==> Some(r->Ok_0) == spec_detected_message(hex_bytes(s@)),
        r is Err && is_hex_text(s@) ==> r == Err::<Message, CodecError>(
            CodecError::UnrecognizedMessage,
        ),
{
    match decode_hex(s) {
        Ok(b) => detect_and_decode(b.as_slice()),
        Err(_) => Err(CodecError::InvalidHex),
    }
}

/// An oracle-announcement TLV record is always reported as an oracle
/// announcement, whatever else its bytes could be read as.
pub proof fn lemma_announcement_tlv_wins(b: Seq<u8>)
    requires
        (announcement_tlv_of(b) is Some),
    ensures
        spec_detected(b) == Some(MessageKind::OracleAnnouncement),
{
    assert(spec_outcomes(spec_plan(b), b)[0]);
}

/// A buffer that leads with the oracle-announcement id but is no TLV record
/// (of either oracle kind) is read as a legacy announcement body, and is
/// reported as an announcement exactly when that body parses.
pub proof fn lemma_announcement_fallback(b: Seq<u8>)
    requires
        spec_leading_id(b) == Some(ANNOUNCEMENT_TYPE_ID),
        !(announcement_tlv_of(b) is Some),
        !(attestation_tlv_of(b) is Some),
    ensures
        spec_plan(b) == seq![
            Probe::AnnouncementTlv,
            Probe::AttestationTlv,
            Probe::AnnouncementTlv,
            Probe::AnnouncementBody,
        ],
        (announcement_body_of(spec_body_of(b)) is Some) ==> spec_detected(b) == Some(
            MessageKind::OracleAnnouncement,
        ),
        !(announcement_body_of(spec_body_of(b)) is Some) ==> spec_detected(b) is None,
{
    let ps = spec_plan(b);
    assert(ps =~= seq![
        Probe::AnnouncementTlv,
        Probe::AttestationTlv,
        Probe::AnnouncementTlv,
        Probe::AnnouncementBody,
    ]);
    let o = spec_outcomes(ps, b);
    assert(!o[0] && !o[1] && !o[2]);
    assert(o[3] == (announcement_body_of(spec_body_of(b)) is Some));
    assert(spec_first_true(o, 4) is None);
    assert(spec_first_true(o, 0) == spec_first_true(o, 1));
    assert(spec_first_true(o, 1) == spec_first_true(o, 2));
    assert(spec_first_true(o, 2) == spec_first_true(o, 3));
}

/// A buffer of two bytes or more whose leading id is none of the known ids
/// is probed, as a whole, as contract info, then oracle info, then oracle
/// event, after the two TLV attempts; the same holds of a shorter buffer.
pub proof fn lemma_unknown_prefix_fallback(b: Seq<u8>)
    requires
        b.len() < 2 || (spec_leading_id(b) != Some(OFFER_TYPE_ID) && spec_leading_id(b) != Some(
            ACCEPT_TYPE_ID,
        ) && spec_leading_id(b) != Some(SIGN_TYPE_ID) && spec_leading_id(b) != Some(
            ANNOUNCEMENT_TYPE_ID,
        ) && spec_leading_id(b) != Some(ATTESTATION_TYPE_ID)),
    ensures
        spec_plan(b) == seq![
            Probe::AnnouncementTlv,
            Probe::AttestationTlv,
            Probe::ContractInfoBare,
            Probe::OracleInfoBare,
            Probe::OracleEventBare,
        ],
        !(announcement_tlv_of(b) is Some) && !(attestation_tlv_of(b) is Some) ==> spec_detected(b) == (
        if (contract_info_of(b) is Some) {
            Some(MessageKind::ContractInfo)
        } else if (oracle_info_of(b) is Some) {
            Some(MessageKind::OracleInfo)
        } else if (oracle_event_of(b) is Some) {
            Some(MessageKind::OracleEvent)
        } else {
            None
        }),
{
    let ps = spec_plan(b);
    assert(ps =~= seq![
        Probe::AnnouncementTlv,
        Probe::AttestationTlv,
        Probe::ContractInfoBare,
        Probe::OracleInfoBare,
        Probe::OracleEventBare,
    ]);
    let o = spec_outcomes(ps, b);
    assert(o[2] == (contract_info_of(b) is Some));
    assert(o[3] == (oracle_info_of(b) is Some));
    assert(o[4] == (oracle_event_of(b) is Some));
    assert(spec_first_true(o, 5) is None);
    if !(announcement_tlv_of(b) is Some) && !(attestation_tlv_of(b) is Some) {
        assert(spec_first_true(o, 0) == spec_first_true(o, 1));
        assert(spec_first_true(o, 1) == spec_first_true(o, 2));
        if !o[2] {
            assert(spec_first_true(o, 2) == spec_first_true(o, 3));
            if !o[3] {
                assert(spec_first_true(o, 3) == spec_first_true(o, 4));
            }
        }
    }
}

} // verus!
