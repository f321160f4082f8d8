//! Field-for-field conversions between the oracle types of this library and
//! those of `dlc_messages`. Each value built here is named by its fields.

use vstd::prelude::*;
use dlc_messages::oracle_msgs::{
    DigitDecompositionEventDescriptor, EnumEventDescriptor, EventDescriptor, OracleAnnouncement,
    OracleAttestation, OracleEvent,
};
use secp256k1_zkp::schnorr::Signature;
use secp256k1_zkp::XOnlyPublicKey;
use crate::digits::strings_view;
use crate::dlc::{attestation_outcome_count, attestation_signature_count};
use crate::oracle::{Descriptor, descriptor_matches, spec_descriptor_to_dlc};

verus! {

/// `dlc_messages::oracle_msgs::EventDescriptor`, declared opaque: values of it are only carried through.
#[verifier::external_type_specification]
#[verifier::external_body]
pub struct ExEventDescriptor(EventDescriptor);

/// The enum descriptor with the given outcome labels.
pub uninterp spec fn dlc_enum_descriptor_of(outcomes: Seq<Seq<char>>) -> EventDescriptor;

/// The digit-decomposition descriptor with the given fields.
pub uninterp spec fn dlc_digit_descriptor_of(
    base: u16,
    is_signed: bool,
    unit: Seq<char>,
    precision: i32,
    nb_digits: u16,
) -> EventDescriptor;

/// The outcome labels of a descriptor, read from its `EnumEvent` variant.
pub uninterp spec fn enum_outcomes_of(d: EventDescriptor) -> Option<Seq<Seq<char>>>;

/// The base, signedness, unit, precision and digit count of a descriptor,
/// read from its `DigitDecompositionEvent` variant.
pub uninterp spec fn digit_fields_of(d: EventDescriptor) -> Option<(u16, bool, Seq<char>, i32, u16)>;

/// An event's `oracle_nonces` field.
pub uninterp spec fn event_nonces_of(e: OracleEvent) -> Seq<XOnlyPublicKey>;

/// An event's `event_maturity_epoch` field.
pub uninterp spec fn event_maturity_of(e: OracleEvent) -> u32;

/// An event's `event_descriptor` field.
pub uninterp spec fn event_descriptor_of(e: OracleEvent) -> EventDescriptor;

/// An event's `event_id` field.
pub uninterp spec fn event_id_of(e: OracleEvent) -> Seq<char>;

/// An announcement's `announcement_signature` field.
pub uninterp spec fn announcement_signature_of(a: OracleAnnouncement) -> Signature;

/// An announcement's `oracle_public_key` field.
pub uninterp spec fn announcement_key_of(a: OracleAnnouncement) -> XOnlyPublicKey;

/// An announcement's `oracle_event` field.
pub uninterp spec fn announcement_event_of(a: OracleAnnouncement) -> OracleEvent;

/// Whether an event's nonce count is the one its descriptor asks for: one
/// for an enum event, one per digit for a digit-decomposition event.
pub open spec fn dlc_event_wf(e: OracleEvent) -> bool {
    match digit_fields_of(event_descriptor_of(e)) {
        Some(f) => event_nonces_of(e).len() == f.4,
        None => event_nonces_of(e).len() == 1,
    }
}

/// The oracle event with the given fields.
pub uninterp spec fn dlc_event_of(
    nonces: Seq<XOnlyPublicKey>,
    maturity: u32,
    descriptor: EventDescriptor,
    event_id: Seq<char>,
) -> OracleEvent;

/// The oracle announcement with the given fields.
pub uninterp spec fn dlc_announcement_of(
    signature: Signature,
    oracle_public_key: XOnlyPublicKey,
    event: OracleEvent,
) -> OracleAnnouncement;

/// The oracle attestation with the given fields.
pub uninterp spec fn dlc_attestation_of(
    event_id: Seq<char>,
    oracle_public_key: XOnlyPublicKey,
    signatures: Seq<Signature>,
    outcomes: Seq<Seq<char>>,
) -> OracleAttestation;

/// Relies on `dlc_messages`' `EventDescriptor::EnumEvent`: its one field.
#[verifier::external_body]
pub(crate) fn dlc_enum_descriptor(outcomes: Vec<String>) -> (r: EventDescriptor)
    ensures
        r == dlc_enum_descriptor_of(strings_view(outcomes@)),
        enum_outcomes_of(r) == Some(strings_view(outcomes@)),
        digit_fields_of(r) is None,
{
    EventDescriptor::EnumEvent(EnumEventDescriptor { outcomes })
}

/// Relies on `dlc_messages`' `EventDescriptor::DigitDecompositionEvent`:
/// its five fields.
#[verifier::external_body]
pub(crate) fn dlc_digit_descriptor(
    base: u16,
    is_signed: bool,
    unit: String,
    precision: i32,
    nb_digits: u16,
) -> (r: EventDescriptor)
    ensures
        r == dlc_digit_descriptor_of(base, is_signed, unit@, precision, nb_digits),
        enum_outcomes_of(r) is None,
        digit_fields_of(r) == Some((base, is_signed, unit@, precision, nb_digits)),
{
    EventDescriptor::DigitDecompositionEvent(
        DigitDecompositionEventDescriptor { base, is_signed, unit, precision, nb_digits },
    )
}

/// Relies on `dlc_messages`' `EventDescriptor` variants: each field moved over.
#[verifier::external_body]
pub(crate) fn descriptor_from_dlc(d: EventDescriptor) -> (r: Descriptor)
    ensures
        spec_descriptor_to_dlc(r) == d,
        descriptor_matches(d, r),
{
    match d {
        EventDescriptor::EnumEvent(e) => Descriptor::Enum { outcomes: e.outcomes },
        EventDescriptor::DigitDecompositionEvent(e) => Descriptor::DigitDecomposition {
            base: e.base,
            is_signed: e.is_signed,
            unit: e.unit,
            precision: e.precision,
            nb_digits: e.nb_digits,
        },
    }
}

/// Relies on `dlc_messages`' `OracleEvent`: its four public fields.
#[verifier::external_body]
pub(crate) fn dlc_event(
    nonces: Vec<XOnlyPublicKey>,
    maturity: u32,
    descriptor: EventDescriptor,
    event_id: String,
) -> (r: OracleEvent)
    ensures
        r == dlc_event_of(nonces@, maturity, descriptor, event_id@),
        event_nonces_of(r) == nonces@,
        event_maturity_of(r) == maturity,
        event_descriptor_of(r) == descriptor,
        event_id_of(r) == event_id@,
{
    OracleEvent {
        oracle_nonces: nonces,
        event_maturity_epoch: maturity,
        event_descriptor: descriptor,
        event_id,
    }
}

/// Relies on `dlc_messages`' `OracleEvent`: its four public fields.
#[verifier::external_body]
pub(crate) fn dlc_event_fields(e: OracleEvent) -> (r: (Vec<XOnlyPublicKey>, u32, EventDescriptor, String))
    ensures
        dlc_event_of(r.0@, r.1, r.2, r.3@) == e,
        r.0@ == event_nonces_of(e),
        r.1 == event_maturity_of(e),
        r.2 == event_descriptor_of(e),
        r.3@ == event_id_of(e),
{
    (e.oracle_nonces, e.event_maturity_epoch, e.event_descriptor, e.event_id)
}

/// Relies on `dlc_messages`' `OracleAnnouncement`: its three public fields.
#[verifier::external_body]
pub(crate) fn dlc_announcement(
    signature: Signature,
    oracle_public_key: XOnlyPublicKey,
    oracle_event: OracleEvent,
) -> (r: OracleAnnouncement)
    ensures
        r == dlc_announcement_of(signature, oracle_public_key, oracle_event),
        announcement_signature_of(r) == signature,
        announcement_key_of(r) == oracle_public_key,
        announcement_event_of(r) == oracle_event,
{
    OracleAnnouncement { announcement_signature: signature, oracle_public_key, oracle_event }
}

/// Relies on `dlc_messages`' `OracleAnnouncement`: its three public fields.
#[verifier::external_body]
pub(crate) fn dlc_announcement_fields(a: OracleAnnouncement) -> (r: (Signature, XOnlyPublicKey, OracleEvent))
    ensures
        dlc_announcement_of(r.0, r.1, r.2) == a,
        r.0 == announcement_signature_of(a),
        r.1 == announcement_key_of(a),
        r.2 == announcement_event_of(a),
{
    (a.announcement_signature, a.oracle_public_key, a.oracle_event)
}

/// Relies on `dlc_messages`' `OracleAttestation`: its four public fields.
#[verifier::external_body]
pub(crate) fn dlc_attestation(
    event_id: String,
    oracle_public_key: XOnlyPublicKey,
    signatures: Vec<Signature>,
    outcomes: Vec<String>,
) -> (r: OracleAttestation)
    ensures
        r == dlc_attestation_of(event_id@, oracle_public_key, signatures@, strings_view(outcomes@)),
        attestation_signature_count(r) == signatures@.len(),
        attestation_outcome_count(r) == outcomes@.len(),
{
    OracleAttestation { event_id, oracle_public_key, signatures, outcomes }
}

/// Relies on `dlc_messages`' `OracleEvent`: the length of `oracle_nonces`,
/// and `nb_digits` when the descriptor is a digit decomposition.
#[verifier::external_body]
pub(crate) fn event_shape(e: &OracleEvent) -> (r: (usize, Option<u16>))
    ensures
        r.0 as nat == event_nonces_of(*e).len(),
        match digit_fields_of(event_descriptor_of(*e)) {
            Some(f) => r.1 == Some(f.4),
            None => r.1 is None,
        },
{
    let digits = match &e.event_descriptor {
        EventDescriptor::EnumEvent(_) => None,
        EventDescriptor::DigitDecompositionEvent(d) => Some(d.nb_digits),
    };
    (e.oracle_nonces.len(), digits)
}

} // verus!
