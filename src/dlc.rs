//! The DLC message types of `dlc_messages` and the codec calls made on them.
//!
//! The types are opaque here. Each reader is a deterministic parser, so
//! whether it accepts a buffer is named as a function of the bytes alone.

use vstd::prelude::*;
use dlc_messages::{AcceptDlc, OfferDlc, SignDlc};
use dlc_messages::oracle_msgs::{OracleAnnouncement, OracleAttestation, OracleEvent, OracleInfo};
use dlc_messages::contract_msgs::{ContractDescriptor, ContractInfo};
use dlc_messages::ser_impls::{read_as_tlv, write_as_tlv};
use lightning::io::Cursor;
use lightning::ln::msgs::DecodeError;
use lightning::util::ser::{Readable, Writeable};

verus! {

/// `OfferDlc`, declared opaque: values of it are only carried through.
#[verifier::external_type_specification]
#[verifier::external_body]
pub struct ExOfferDlc(OfferDlc);

/// `AcceptDlc`, declared opaque: values of it are only carried through.
#[verifier::external_type_specification]
#[verifier::external_body]
pub struct ExAcceptDlc(AcceptDlc);

/// `SignDlc`, declared opaque: values of it are only carried through.
#[verifier::external_type_specification]
#[verifier::external_body]
pub struct ExSignDlc(SignDlc);

/// `OracleAnnouncement`, declared opaque: values of it are only carried through.
#[verifier::external_type_specification]
#[verifier::external_body]
pub struct ExOracleAnnouncement(OracleAnnouncement);

/// `OracleAttestation`, declared opaque: values of it are only carried through.
#[verifier::external_type_specification]
#[verifier::external_body]
pub struct ExOracleAttestation(OracleAttestation);

/// `OracleEvent`, declared opaque: values of it are only carried through.
#[verifier::external_type_specification]
#[verifier::external_body]
pub struct ExOracleEvent(OracleEvent);

/// `OracleInfo`, declared opaque: values of it are only carried through.
#[verifier::external_type_specification]
#[verifier::external_body]
pub struct ExOracleInfo(OracleInfo);

/// `ContractInfo`, declared opaque: values of it are only carried through.
#[verifier::external_type_specification]
#[verifier::external_body]
pub struct ExContractInfo(ContractInfo);

/// `ContractDescriptor`, declared opaque: values of it are only carried through.
#[verifier::external_type_specification]
#[verifier::external_body]
pub struct ExContractDescriptor(ContractDescriptor);

/// `DecodeError`, declared opaque: values of it are only carried through.
#[verifier::external_type_specification]
#[verifier::external_body]
pub struct ExDecodeError(DecodeError);


/// What `OfferDlc`'s reader reads from the bytes as an offer body.
pub uninterp spec fn offer_body_of(b: Seq<u8>) -> Option<OfferDlc>;

/// What `AcceptDlc`'s reader reads from the bytes, if it accepts them as an accept body.
pub uninterp spec fn accept_body_of(b: Seq<u8>) -> Option<AcceptDlc>;

/// What `SignDlc`'s reader reads from the bytes, if it accepts them as a sign body.
pub uninterp spec fn sign_body_of(b: Seq<u8>) -> Option<SignDlc>;

/// What `OracleAnnouncement`'s reader reads from the bytes, if it accepts them as a bare body.
pub uninterp spec fn announcement_body_of(b: Seq<u8>) -> Option<OracleAnnouncement>;

/// What `OracleAttestation`'s reader reads from the bytes, if it accepts them as a bare body.
pub uninterp spec fn attestation_body_of(b: Seq<u8>) -> Option<OracleAttestation>;

/// What `OracleEvent`'s reader reads from the bytes, if it accepts them.
pub uninterp spec fn oracle_event_of(b: Seq<u8>) -> Option<OracleEvent>;

/// What `OracleInfo`'s reader reads from the bytes, if it accepts them.
pub uninterp spec fn oracle_info_of(b: Seq<u8>) -> Option<OracleInfo>;

/// What `ContractInfo`'s reader reads from the bytes, if it accepts them.
pub uninterp spec fn contract_info_of(b: Seq<u8>) -> Option<ContractInfo>;

/// What `ContractDescriptor`'s reader reads from the bytes, if it accepts them.
pub uninterp spec fn contract_descriptor_of(b: Seq<u8>) -> Option<ContractDescriptor>;

/// What `read_as_tlv` reads from the bytes, if it accepts them as an oracle announcement record.
pub uninterp spec fn announcement_tlv_of(b: Seq<u8>) -> Option<OracleAnnouncement>;

/// What `read_as_tlv` reads from the bytes, if it accepts them as an oracle attestation record.
pub uninterp spec fn attestation_tlv_of(b: Seq<u8>) -> Option<OracleAttestation>;

/// The bytes `<OfferDlc as Writeable>::encode` writes for a value.
pub uninterp spec fn offer_bytes(v: OfferDlc) -> Seq<u8>;

/// The bytes `<AcceptDlc as Writeable>::encode` writes for a value.
pub uninterp spec fn accept_bytes(v: AcceptDlc) -> Seq<u8>;

/// The bytes `<SignDlc as Writeable>::encode` writes for a value.
pub uninterp spec fn sign_bytes(v: SignDlc) -> Seq<u8>;

/// The bytes `<OracleEvent as Writeable>::encode` writes for a value.
pub uninterp spec fn oracle_event_bytes(v: OracleEvent) -> Seq<u8>;

/// The bytes `<OracleInfo as Writeable>::encode` writes for a value.
pub uninterp spec fn oracle_info_bytes(v: OracleInfo) -> Seq<u8>;

/// The bytes `<ContractInfo as Writeable>::encode` writes for a value.
pub uninterp spec fn contract_info_bytes(v: ContractInfo) -> Seq<u8>;

/// The bytes `<ContractDescriptor as Writeable>::encode` writes for a value.
pub uninterp spec fn contract_descriptor_bytes(v: ContractDescriptor) -> Seq<u8>;

/// The bytes `write_as_tlv` writes for an announcement.
pub uninterp spec fn announcement_tlv_bytes(v: OracleAnnouncement) -> Seq<u8>;

/// The bytes `write_as_tlv` writes for an attestation.
pub uninterp spec fn attestation_tlv_bytes(v: OracleAttestation) -> Seq<u8>;

/// The length of an attestation's `signatures` field.
pub uninterp spec fn attestation_signature_count(a: OracleAttestation) -> nat;

/// The length of an attestation's `outcomes` field.
pub uninterp spec fn attestation_outcome_count(a: OracleAttestation) -> nat;

/// Relies on `<OfferDlc as Readable>::read`, a parser of the bytes alone.
#[verifier::external_body]
pub(crate) fn read_offer(b: &[u8]) -> (r: Result<OfferDlc, DecodeError>)
    ensures
        match offer_body_of(b@) {
            Some(v) => r == Ok::<OfferDlc, DecodeError>(v),
            None => r is Err,
        },
{
    OfferDlc::read(&mut Cursor::new(b))
}

/// Relies on `<AcceptDlc as Readable>::read`, a parser of the bytes alone.
#[verifier::external_body]
pub(crate) fn read_accept(b: &[u8]) -> (r: Result<AcceptDlc, DecodeError>)
    ensures
        match accept_body_of(b@) {
            Some(v) => r == Ok::<AcceptDlc, DecodeError>(v),
            None => r is Err,
        },
{
    AcceptDlc::read(&mut Cursor::new(b))
}

/// Relies on `<SignDlc as Readable>::read`, a parser of the bytes alone.
#[verifier::external_body]
pub(crate) fn read_sign(b: &[u8]) -> (r: Result<SignDlc, DecodeError>)
    ensures
        match sign_body_of(b@) {
            Some(v) => r == Ok::<SignDlc, DecodeError>(v),
            None => r is Err,
        },
{
    SignDlc::read(&mut Cursor::new(b))
}

/// Relies on `<OracleAnnouncement as Readable>::read`, a parser of the bytes alone.
#[verifier::external_body]
pub(crate) fn read_announcement_body(b: &[u8]) -> (r: Result<OracleAnnouncement, DecodeError>)
    ensures
        match announcement_body_of(b@) {
            Some(v) => r == Ok::<OracleAnnouncement, DecodeError>(v),
            None => r is Err,
        },
{
    OracleAnnouncement::read(&mut Cursor::new(b))
}

/// Relies on `<OracleAttestation as Readable>::read`, a parser of the bytes alone.
#[verifier::external_body]
pub(crate) fn read_attestation_body(b: &[u8]) -> (r: Result<OracleAttestation, DecodeError>)
    ensures
        match attestation_body_of(b@) {
            Some(v) => r == Ok::<OracleAttestation, DecodeError>(v),
            None => r is Err,
        },
{
    OracleAttestation::read(&mut Cursor::new(b))
}

/// Relies on `<OracleEvent as Readable>::read`, a parser of the bytes alone.
#[verifier::external_body]
pub(crate) fn read_oracle_event(b: &[u8]) -> (r: Result<OracleEvent, DecodeError>)
    ensures
        match oracle_event_of(b@) {
            Some(v) => r == Ok::<OracleEvent, DecodeError>(v),
            None => r is Err,
        },
{
    OracleEvent::read(&mut Cursor::new(b))
}

/// Relies on `<OracleInfo as Readable>::read`, a parser of the bytes alone.
#[verifier::external_body]
pub(crate) fn read_oracle_info(b: &[u8]) -> (r: Result<OracleInfo, DecodeError>)
    ensures
        match oracle_info_of(b@) {
            Some(v) => r == Ok::<OracleInfo, DecodeError>(v),
            None => r is Err,
        },
{
    OracleInfo::read(&mut Cursor::new(b))
}

/// Relies on `<ContractInfo as Readable>::read`, a parser of the bytes alone.
#[verifier::external_body]
pub(crate) fn read_contract_info(b: &[u8]) -> (r: Result<ContractInfo, DecodeError>)
    ensures
        match contract_info_of(b@) {
            Some(v) => r == Ok::<ContractInfo, DecodeError>(v),
            None => r is Err,
        },
{
    ContractInfo::read(&mut Cursor::new(b))
}

/// Relies on `<ContractDescriptor as Readable>::read`, a parser of the bytes alone.
#[verifier::external_body]
pub(crate) fn read_contract_descriptor(b: &[u8]) -> (r: Result<ContractDescriptor, DecodeError>)
    ensures
        match contract_descriptor_of(b@) {
            Some(v) => r == Ok::<ContractDescriptor, DecodeError>(v),
            None => r is Err,
        },
{
    ContractDescriptor::read(&mut Cursor::new(b))
}

/// Relies on `read_as_tlv::<OracleAnnouncement>`: a type and a length, each
/// a BigSize, then the announcement body.
#[verifier::external_body]
pub(crate) fn read_announcement_tlv(b: &[u8]) -> (r: Result<OracleAnnouncement, DecodeError>)
    ensures
        match announcement_tlv_of(b@) {
            Some(v) => r == Ok::<OracleAnnouncement, DecodeError>(v),
            None => r is Err,
        },
{
    read_as_tlv::<OracleAnnouncement, _>(&mut Cursor::new(b))
}

/// Relies on `read_as_tlv::<OracleAttestation>`: a type and a length, each
/// a BigSize, then the attestation body.
#[verifier::external_body]
pub(crate) fn read_attestation_tlv(b: &[u8]) -> (r: Result<OracleAttestation, DecodeError>)
    ensures
        match attestation_tlv_of(b@) {
            Some(v) => r == Ok::<OracleAttestation, DecodeError>(v),
            None => r is Err,
        },
{
    read_as_tlv::<OracleAttestation, _>(&mut Cursor::new(b))
}

/// Relies on `<OfferDlc as Writeable>::encode`: the offer body.
#[verifier::external_body]
pub(crate) fn write_offer(v: &OfferDlc) -> (r: Vec<u8>)
    ensures
        r@ == offer_bytes(*v),
{
    v.encode()
}

/// Relies on `<AcceptDlc as Writeable>::encode`: the accept body.
#[verifier::external_body]
pub(crate) fn write_accept(v: &AcceptDlc) -> (r: Vec<u8>)
    ensures
        r@ == accept_bytes(*v),
{
    v.encode()
}

/// Relies on `<SignDlc as Writeable>::encode`: the sign body.
#[verifier::external_body]
pub(crate) fn write_sign(v: &SignDlc) -> (r: Vec<u8>)
    ensures
        r@ == sign_bytes(*v),
{
    v.encode()
}

/// Relies on `<OracleEvent as Writeable>::encode`: the event body.
#[verifier::external_body]
pub(crate) fn write_oracle_event(v: &OracleEvent) -> (r: Vec<u8>)
    ensures
        r@ == oracle_event_bytes(*v),
{
    v.encode()
}

/// Relies on `<OracleInfo as Writeable>::encode`: the oracle-info body.
#[verifier::external_body]
pub(crate) fn write_oracle_info(v: &OracleInfo) -> (r: Vec<u8>)
    ensures
        r@ == oracle_info_bytes(*v),
{
    v.encode()
}

/// Relies on `<ContractInfo as Writeable>::encode`: the contract-info body.
#[verifier::external_body]
pub(crate) fn write_contract_info(v: &ContractInfo) -> (r: Vec<u8>)
    ensures
        r@ == contract_info_bytes(*v),
{
    v.encode()
}

/// Relies on `<ContractDescriptor as Writeable>::encode`: the descriptor body.
#[verifier::external_body]
pub(crate) fn write_contract_descriptor(v: &ContractDescriptor) -> (r: Vec<u8>)
    ensures
        r@ == contract_descriptor_bytes(*v),
{
    v.encode()
}

/// Relies on `write_as_tlv` for an announcement: its tag, its length, its
/// body. Writing into a `Vec` never fails, so the error arm is not taken.
#[verifier::external_body]
pub(crate) fn write_announcement_tlv(v: &OracleAnnouncement) -> (r: Vec<u8>)
    ensures
        r@ == announcement_tlv_bytes(*v),
{
    let mut out = Vec::new();
    match write_as_tlv(v, &mut out) {
        Ok(()) => out,
        Err(_) => Vec::new(),
    }
}

/// Relies on `write_as_tlv` for an attestation: its tag, its length, its
/// body. Writing into a `Vec` never fails, so the error arm is not taken.
#[verifier::external_body]
pub(crate) fn write_attestation_tlv(v: &OracleAttestation) -> (r: Vec<u8>)
    ensures
        r@ == attestation_tlv_bytes(*v),
{
    let mut out = Vec::new();
    match write_as_tlv(v, &mut out) {
        Ok(()) => out,
        Err(_) => Vec::new(),
    }
}

/// Relies on `OracleAttestation`'s public `signatures` and `outcomes` fields:
/// their lengths.
#[verifier::external_body]
pub(crate) fn attestation_counts(a: &OracleAttestation) -> (r: (usize, usize))
    ensures
        r.0 as nat == attestation_signature_count(*a),
        r.1 as nat == attestation_outcome_count(*a),
{
    (a.signatures.len(), a.outcomes.len())
}

} // verus!
