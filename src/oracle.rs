//! Oracle events, announcements and attestations, and the builders that
//! make new ones.

use vstd::prelude::*;
use dlc_messages::oracle_msgs::{OracleAnnouncement, OracleAttestation, OracleEvent};
use secp256k1_zkp::schnorr::Signature;
use secp256k1_zkp::{SecretKey, XOnlyPublicKey};
use crate::kind::{str_equal, ANNOUNCEMENT_TYPE_ID};
use crate::frame::{body_of, leading_id, spec_body_of, spec_leading_id};
use crate::codec::{encode, CodecError, Message};
use crate::hexstr::{decode_hex, encode_hex, hex_bytes, hex_text, is_hex_text};
use crate::dlc::{
    announcement_body_of, announcement_tlv_of, read_announcement_body,
    read_announcement_tlv, write_oracle_event,
};
use crate::digits::{
    digit_tokens, parse_u64, spec_digit_tokens, spec_parse_u64, strings_view,
};
use crate::crypto::{
    derive_normal_child, keypair_of, keypair_of_secret, keypair_x_only, master_key,
    master_key_of, normal_child_of, random_seed, schnorr_signature_of, secret_from_bytes,
    secret_key_of, secret_x_only, sha256_digest, sha256_of, sign_digest, x_only_of, xpriv_secret,
    xpriv_secret_of,
};
use crate::convert::{
    announcement_event_of, announcement_key_of, announcement_signature_of, descriptor_from_dlc,
    digit_fields_of, enum_outcomes_of, event_descriptor_of, event_id_of, event_maturity_of,
    event_nonces_of, dlc_announcement, dlc_announcement_fields,
    dlc_announcement_of, dlc_attestation, dlc_attestation_of, dlc_digit_descriptor,
    dlc_digit_descriptor_of, dlc_enum_descriptor, dlc_enum_descriptor_of, dlc_event,
    dlc_event_fields, dlc_event_of,
};
use crate::dlc::{announcement_tlv_bytes, attestation_tlv_bytes, oracle_event_bytes};
use crate::codec::spec_encoding;
use vstd::utf8::encode_utf8;

verus! {

/// The number of binary digits of a digit-decomposition fixture event.
pub const FIXTURE_DIGITS: u16 = 8;

/// The child index at which nonce keys are derived from their master key.
pub const NONCE_CHILD_INDEX: u32 = 1;

/// What an oracle event is about.
#[derive(Clone, Debug, PartialEq, Eq)]
pub enum Descriptor {
    /// One of a list of outcome labels.
    Enum { outcomes: Vec<String> },
    /// A number, attested digit by digit.
    DigitDecomposition {
        base: u16,
        is_signed: bool,
        unit: String,
        precision: i32,
        nb_digits: u16,
    },
}

/// An oracle event: nonce commitments, a maturity, a descriptor and an id.
#[derive(Clone, Debug, PartialEq, Eq)]
pub struct Event {
    pub nonces: Vec<XOnlyPublicKey>,
    pub maturity: u32,
    pub descriptor: Descriptor,
    pub event_id: String,
}

/// An oracle's signed commitment to an event.
#[derive(Clone, Debug, PartialEq, Eq)]
pub struct Announcement {
    pub oracle_public_key: XOnlyPublicKey,
    pub event: Event,
    pub signature: Signature,
}

/// An oracle's signatures over the outcome tokens of an event.
#[derive(Clone, Debug, PartialEq, Eq)]
pub struct Attestation {
    pub event_id: String,
    pub oracle_public_key: XOnlyPublicKey,
    pub signatures: Vec<Signature>,
    pub outcomes: Vec<String>,
}

/// The two kinds of fixture event the announcement builder makes.
#[derive(Clone, Copy, Debug, PartialEq, Eq, Structural)]
pub enum EventType {
    Enum,
    DigitDecomposition,
}

/// Why building or reading an oracle artifact failed.
#[derive(Clone, Copy, Debug, PartialEq, Eq, Structural)]
pub enum OracleError {
    /// The event type is neither `enum` nor `digit-decomposition`.
    UnsupportedEventType,
    /// No secure random bytes could be had.
    RandomnessUnavailable,
    /// A key could not be derived from its seed.
    KeyDerivationFailed,
    /// The outcome is not one of the enum event's labels.
    InvalidOutcome,
    /// The outcome of a digit-decomposition event is not an unsigned number.
    OutcomeNotNumeric,
    /// The announcement bytes are shorter than a type id.
    AnnouncementTooShort,
    /// The announcement bytes carry another type id.
    UnexpectedType(u16),
    /// The announcement bytes do not parse.
    InvalidAnnouncement,
    /// An artifact could not be encoded.
    Encoding(CodecError),
    /// The announcement text is not an even number of hexadecimal digits.
    InvalidHex,
}

/// A well-formed event has one nonce for an enum descriptor with at least
/// one label, and one nonce per digit for a digit-decomposition descriptor.
pub open spec fn event_wf(e: Event) -> bool {
    match e.descriptor {
        Descriptor::Enum { outcomes } => e.nonces@.len() == 1 && outcomes@.len() >= 1,
        Descriptor::DigitDecomposition { nb_digits, .. } => e.nonces@.len() == nb_digits
            && nb_digits >= 1,
    }
}

/// The event type named `s`, if any.
pub open spec fn spec_event_type_named(s: Seq<char>) -> Option<EventType> {
    if s == "enum"@ {
        Some(EventType::Enum)
    } else if s == "digit-decomposition"@ {
        Some(EventType::DigitDecomposition)
    } else {
        None
    }
}

/// The descriptor the builder uses for each event type: the labels `win`,
/// `lose`, `draw`; or eight unsigned binary digits of `BTCUSD` at precision 0.
pub open spec fn is_fixture_descriptor(t: EventType, d: Descriptor) -> bool {
    match t {
        EventType::Enum => match d {
            Descriptor::Enum { outcomes } => strings_view(outcomes@) == seq![
                "win"@,
                "lose"@,
                "draw"@,
            ],
            _ => false,
        },
        EventType::DigitDecomposition => match d {
            Descriptor::DigitDecomposition { base, is_signed, unit, precision, nb_digits } => base
                == 2 && !is_signed && unit@ == "BTCUSD"@ && precision == 0 && nb_digits
                == FIXTURE_DIGITS,
            _ => false,
        },
    }
}

/// The outcome tokens an attestation of `outcome` carries under a
/// descriptor: the outcome itself for an enum event that lists it; the
/// event's binary digits, least significant first, for a number.
pub open spec fn spec_outcome_tokens(d: Descriptor, outcome: Seq<char>) -> Result<
    Seq<Seq<char>>,
    OracleError,
> {
    match d {
        Descriptor::Enum { outcomes } => if strings_view(outcomes@).contains(outcome) {
            Ok(seq![outcome])
        } else {
            Err(OracleError::InvalidOutcome)
        },
        Descriptor::DigitDecomposition { nb_digits, .. } => match spec_parse_u64(outcome) {
            Some(v) => Ok(spec_digit_tokens(v as nat, nb_digits as nat)),
            None => Err(OracleError::OutcomeNotNumeric),
        },
    }
}

/// Whether an error is one that only randomness or key derivation causes.
pub open spec fn is_key_error(e: OracleError) -> bool {
    e == OracleError::RandomnessUnavailable || e == OracleError::KeyDerivationFailed
}

/// An enum attestation is refused with `InvalidOutcome` exactly for the
/// outcomes that the event does not list, and otherwise carries that one
/// outcome alone.
pub proof fn lemma_enum_outcomes(d: Descriptor, outcome: Seq<char>)
    requires
        d is Enum,
    ensures
        spec_outcome_tokens(d, outcome) == if strings_view(d->Enum_outcomes@).contains(outcome) {
            Ok::<Seq<Seq<char>>, OracleError>(seq![outcome])
        } else {
            Err(OracleError::InvalidOutcome)
        },
{
}

impl EventType {
    /// The event type with the given name: `enum` or `digit-decomposition`.
    pub fn from_name(s: &str) -> (r: Option<EventType>)
        ensures
            r == spec_event_type_named(s@),
    {
        if str_equal(s, "enum") {
            Some(EventType::Enum)
        } else if str_equal(s, "digit-decomposition") {
            Some(EventType::DigitDecomposition)
        } else {
            None
        }
    }
}

/// What reading announcement bytes gives: too short below two bytes; a TLV
/// record if one parses; else, behind the announcement type id, a legacy
/// body.
pub open spec fn spec_read_announcement(b: Seq<u8>) -> Result<OracleAnnouncement, OracleError> {
    if b.len() < 2 {
        Err(OracleError::AnnouncementTooShort)
    } else if (announcement_tlv_of(b) is Some) {
        Ok(announcement_tlv_of(b)->0)
    } else if spec_leading_id(b) != Some(ANNOUNCEMENT_TYPE_ID) {
        Err(OracleError::UnexpectedType(spec_leading_id(b)->0))
    } else if (announcement_body_of(spec_body_of(b)) is Some) {
        Ok(announcement_body_of(spec_body_of(b))->0)
    } else {
        Err(OracleError::InvalidAnnouncement)
    }
}

/// The fixture descriptor of an event type.
pub fn fixture_descriptor(t: EventType) -> (r: Descriptor)
    ensures
        is_fixture_descriptor(t, r),
{
    match t {
        EventType::Enum => {
            let outcomes = vec!["win".to_owned(), "lose".to_owned(), "draw".to_owned()];
            assert(strings_view(outcomes@) =~= seq!["win"@, "lose"@, "draw"@]);
            Descriptor::Enum { outcomes }
        },
        EventType::DigitDecomposition => Descriptor::DigitDecomposition {
            base: 2,
            is_signed: false,
            unit: "BTCUSD".to_owned(),
            precision: 0,
            nb_digits: FIXTURE_DIGITS,
        },
    }
}

/// The `dlc_messages` form of a descriptor.
pub open spec fn spec_descriptor_to_dlc(d: Descriptor) -> dlc_messages::oracle_msgs::EventDescriptor {
    match d {
        Descriptor::Enum { outcomes } => dlc_enum_descriptor_of(strings_view(outcomes@)),
        Descriptor::DigitDecomposition { base, is_signed, unit, precision, nb_digits } =>
            dlc_digit_descriptor_of(base, is_signed, unit@, precision, nb_digits),
    }
}

/// Whether a `dlc_messages` descriptor holds the same fields as `ld`.
pub open spec fn descriptor_matches(d: dlc_messages::oracle_msgs::EventDescriptor, ld: Descriptor) -> bool {
    match ld {
        Descriptor::Enum { outcomes } => enum_outcomes_of(d) == Some(strings_view(outcomes@)),
        Descriptor::DigitDecomposition { base, is_signed, unit, precision, nb_digits } =>
            enum_outcomes_of(d) is None && digit_fields_of(d) == Some(
                (base, is_signed, unit@, precision, nb_digits),
            ),
    }
}

/// Whether an announcement holds the fields of a `dlc_messages` announcement.
pub open spec fn announcement_reads(a: Announcement, v: OracleAnnouncement) -> bool {
    let e = announcement_event_of(v);
    &&& a.signature == announcement_signature_of(v)
    &&& a.oracle_public_key == announcement_key_of(v)
    &&& a.event.nonces@ == event_nonces_of(e)
    &&& a.event.maturity == event_maturity_of(e)
    &&& a.event.event_id@ == event_id_of(e)
    &&& descriptor_matches(event_descriptor_of(e), a.event.descriptor)
}

/// The outcome tokens an attestation of `outcome` carries under a
/// `dlc_messages` descriptor, read from its fields.
pub open spec fn spec_dlc_outcome_tokens(
    d: dlc_messages::oracle_msgs::EventDescriptor,
    outcome: Seq<char>,
) -> Result<Seq<Seq<char>>, OracleError> {
    match enum_outcomes_of(d) {
        Some(labels) => if labels.contains(outcome) {
            Ok(seq![outcome])
        } else {
            Err(OracleError::InvalidOutcome)
        },
        None => match digit_fields_of(d) {
            Some(f) => match spec_parse_u64(outcome) {
                Some(v) => Ok(spec_digit_tokens(v as nat, f.4 as nat)),
                None => Err(OracleError::OutcomeNotNumeric),
            },
            None => Err(OracleError::InvalidOutcome),
        },
    }
}

/// A descriptor and its `dlc_messages` form ask for the same tokens.
pub proof fn lemma_matching_descriptors_tokens(
    d: dlc_messages::oracle_msgs::EventDescriptor,
    ld: Descriptor,
    outcome: Seq<char>,
)
    requires
        descriptor_matches(d, ld),
    ensures
        spec_outcome_tokens(ld, outcome) == spec_dlc_outcome_tokens(d, outcome),
{
}

/// Whether an attestation's signatures are BIP-340 signatures of its
/// tokens' digests, each by its own nonce key, under an attesting key that is
/// the x-only half of some secret.
pub open spec fn is_attested_by_keys(att: Attestation) -> bool {
    exists|k: SecretKey, ks: Seq<SecretKey>, aux: Seq<u8>|
        #![trigger x_only_of(k), signs_tokens(att, ks, aux)]
        att.oracle_public_key == x_only_of(k) && signs_tokens(att, ks, aux)
}

/// Whether the `i`-th signature of an attestation is the BIP-340 signature,
/// by `ks[i]`'s keypair with auxiliary bytes `aux`, of its `i`-th token's
/// digest.
pub open spec fn signs_tokens(att: Attestation, ks: Seq<SecretKey>, aux: Seq<u8>) -> bool {
    &&& ks.len() == att.signatures@.len()
    &&& forall|i: int|
        0 <= i < ks.len() ==> #[trigger] att.signatures@[i] == schnorr_signature_of(
            spec_token_digest(att.outcomes@[i]@),
            keypair_of(ks[i]),
            aux,
        )
}

/// The `dlc_messages` form of an event.
pub open spec fn spec_event_to_dlc(e: Event) -> OracleEvent {
    dlc_event_of(e.nonces@, e.maturity, spec_descriptor_to_dlc(e.descriptor), e.event_id@)
}

/// The `dlc_messages` form of an announcement.
pub open spec fn spec_announcement_to_dlc(a: Announcement) -> OracleAnnouncement {
    dlc_announcement_of(a.signature, a.oracle_public_key, spec_event_to_dlc(a.event))
}

/// The `dlc_messages` form of an attestation.
pub open spec fn spec_attestation_to_dlc(a: Attestation) -> OracleAttestation {
    dlc_attestation_of(a.event_id@, a.oracle_public_key, a.signatures@, strings_view(a.outcomes@))
}

/// The digest an announcement's signature covers: SHA-256 of the event's
/// canonical encoding.
pub open spec fn spec_event_digest(e: Event) -> Seq<u8> {
    sha256_of(oracle_event_bytes(spec_event_to_dlc(e)))
}

/// The digest an outcome token's signature covers: SHA-256 of its bytes.
pub open spec fn spec_token_digest(t: Seq<char>) -> Seq<u8> {
    sha256_of(encode_utf8(t))
}

/// The nonce secret a seed derives: the BIP-32 master key of the seed, then
/// its normal child at `NONCE_CHILD_INDEX`.
pub open spec fn spec_nonce_secret(seed: Seq<u8>) -> Option<SecretKey> {
    match master_key_of(seed) {
        Some(m) => match normal_child_of(m, NONCE_CHILD_INDEX) {
            Some(c) => Some(xpriv_secret_of(c)),
            None => None,
        },
        None => None,
    }
}

/// The number of nonces the builder commits to for an event type.
pub open spec fn spec_nonce_count(t: EventType) -> nat {
    match t {
        EventType::Enum => 1,
        EventType::DigitDecomposition => FIXTURE_DIGITS as nat,
    }
}

/// Whether each of the first `n` seeds derives a nonce secret.
pub open spec fn seeds_derive(seeds: Seq<[u8; 32]>, n: nat) -> bool {
    forall|i: int| 0 <= i < n ==> (#[trigger] spec_nonce_secret(seeds[i]@)) is Some
}

/// Whether an announcement's signature is a BIP-340 signature, by the key
/// whose x-only half it embeds, of its event's digest.
pub open spec fn is_signed_by_its_key(a: Announcement) -> bool {
    exists|k: SecretKey, aux: Seq<u8>|
        a.oracle_public_key == x_only_of(k) && a.signature == schnorr_signature_of(
            spec_event_digest(a.event),
            keypair_of(k),
            aux,
        )
}

/// Derives a nonce keypair from a seed: the seed's BIP-32 master key on the
/// main network, that key's normal child at `NONCE_CHILD_INDEX`, and the
/// child's secret with its x-only public half.
pub fn nonce_keypair_from_seed(seed: &[u8; 32]) -> (r: Result<(SecretKey, XOnlyPublicKey), OracleError>)
    ensures
        match spec_nonce_secret(seed@) {
            Some(k) => r == Ok::<(SecretKey, XOnlyPublicKey), OracleError>((k, x_only_of(k))),
            None => r == Err::<(SecretKey, XOnlyPublicKey), OracleError>(
                OracleError::KeyDerivationFailed,
            ),
        },
{
    let master = match master_key(seed) {
        Ok(k) => k,
        Err(_) => return Err(OracleError::KeyDerivationFailed),
    };
    let child = match derive_normal_child(&master, NONCE_CHILD_INDEX) {
        Ok(k) => k,
        Err(_) => return Err(OracleError::KeyDerivationFailed),
    };
    let secret = xpriv_secret(&child);
    let public = secret_x_only(&secret);
    Ok((secret, public))
}

/// Derives a fresh nonce keypair from 32 bytes of the operating system's
/// random source.
pub fn create_nonce_keypair() -> (r: Result<(SecretKey, XOnlyPublicKey), OracleError>)
    ensures
        r is Err ==> is_key_error(r->Err_0),
        r is Ok ==> r->Ok_0.1 == x_only_of(r->Ok_0.0),
        r is Ok ==> exists|seed: Seq<u8>| spec_nonce_secret(seed) == Some(r->Ok_0.0),
{
    let seed = match random_seed() {
        Ok(s) => s,
        Err(_) => return Err(OracleError::RandomnessUnavailable),
    };
    nonce_keypair_from_seed(&seed)
}

/// Draws `n` seeds from the operating system's random source.
fn draw_seeds(n: usize) -> (r: Result<Vec<[u8; 32]>, OracleError>)
    ensures
        r is Ok ==> r->Ok_0@.len() == n,
        r is Err ==> r->Err_0 == OracleError::RandomnessUnavailable,
{
    let mut seeds: Vec<[u8; 32]> = Vec::new();
    while seeds.len() < n
        invariant
            seeds@.len() <= n,
        decreases n - seeds@.len(),
    {
        match random_seed() {
            Ok(s) => seeds.push(s),
            Err(_) => return Err(OracleError::RandomnessUnavailable),
        }
    }
    Ok(seeds)
}

/// The outcome tokens an attestation of `outcome` carries under `d`, or why
/// the outcome does not fit the descriptor.
pub fn attestation_outcomes(d: &Descriptor, outcome: &str) -> (r: Result<Vec<String>, OracleError>)
    ensures
        match spec_outcome_tokens(*d, outcome@) {
            Ok(t) => r is Ok && strings_view(r->Ok_0@) == t,
            Err(e) => r == Err::<Vec<String>, OracleError>(e),
        },
{
    match d {
        Descriptor::Enum { outcomes } => {
            let mut i: usize = 0;
            while i < outcomes.len()
                invariant
                    0 <= i <= outcomes@.len(),
                    *d == (Descriptor::Enum { outcomes: *outcomes }),
                    forall|j: int| 0 <= j < i ==> (#[trigger] outcomes@[j])@ != outcome@,
                decreases outcomes@.len() - i,
            {
                if str_equal(outcomes[i].as_str(), outcome) {
                    let v = vec![outcome.to_owned()];
                    assert(strings_view(outcomes@)[i as int] == outcome@);
                    assert(strings_view(outcomes@).contains(outcome@));
                    assert(strings_view(v@) =~= seq![outcome@]);
                    return Ok(v);
                }
                i = i + 1;
            }
            assert(!strings_view(outcomes@).contains(outcome@)) by {
                if strings_view(outcomes@).contains(outcome@) {
                    let j = choose|j: int|
                        0 <= j < strings_view(outcomes@).len() && strings_view(outcomes@)[j]
                            == outcome@;
                    assert(outcomes@[j]@ == outcome@);
                }
            }
            Err(OracleError::InvalidOutcome)
        },
        Descriptor::DigitDecomposition { nb_digits, .. } => match parse_u64(outcome) {
            Some(v) => Ok(digit_tokens(v, *nb_digits)),
            None => Err(OracleError::OutcomeNotNumeric),
        },
    }
}

/// The `dlc_messages` form of a descriptor.
pub fn descriptor_to_dlc(d: &Descriptor) -> (r: dlc_messages::oracle_msgs::EventDescriptor)
    ensures
        r == spec_descriptor_to_dlc(*d),
        descriptor_matches(r, *d),
{
    match d {
        Descriptor::Enum { outcomes } => dlc_enum_descriptor(outcomes.clone()),
        Descriptor::DigitDecomposition { base, is_signed, unit, precision, nb_digits } =>
            dlc_digit_descriptor(*base, *is_signed, unit.clone(), *precision, *nb_digits),
    }
}

/// The `dlc_messages` form of an event.
pub fn event_to_dlc(e: &Event) -> (r: OracleEvent)
    ensures
        r == spec_event_to_dlc(*e),
{
    let nonces = e.nonces.clone();
    assert(nonces@ =~= e.nonces@);
    dlc_event(nonces, e.maturity, descriptor_to_dlc(&e.descriptor), e.event_id.clone())
}

/// The `dlc_messages` form of an announcement.
pub fn announcement_to_dlc(a: &Announcement) -> (r: OracleAnnouncement)
    ensures
        r == spec_announcement_to_dlc(*a),
{
    dlc_announcement(a.signature, a.oracle_public_key, event_to_dlc(&a.event))
}

/// An announcement read from its `dlc_messages` form.
pub fn announcement_from_dlc(a: OracleAnnouncement) -> (r: Announcement)
    ensures
        spec_announcement_to_dlc(r) == a,
        announcement_reads(r, a),
{
    let (signature, oracle_public_key, event) = dlc_announcement_fields(a);
    let (nonces, maturity, descriptor, event_id) = dlc_event_fields(event);
    Announcement {
        oracle_public_key,
        event: Event { nonces, maturity, descriptor: descriptor_from_dlc(descriptor), event_id },
        signature,
    }
}

/// The `dlc_messages` form of an attestation.
pub fn attestation_to_dlc(a: &Attestation) -> (r: OracleAttestation)
    ensures
        r == spec_attestation_to_dlc(*a),
        spec_encoding(Message::OracleAttestation(r)) == if a.signatures@.len() == a.outcomes@.len() {
            Some(attestation_tlv_bytes(r))
        } else {
            None::<Seq<u8>>
        },
{
    let signatures = a.signatures.clone();
    assert(signatures@ =~= a.signatures@);
    let outcomes = a.outcomes.clone();
    assert(outcomes@ =~= a.outcomes@);
    dlc_attestation(a.event_id.clone(), a.oracle_public_key, signatures, outcomes)
}

/// Builds a fixture announcement from injected randomness: the oracle key
/// from `oracle_seed`, one nonce per leading seed of `nonce_seeds` (one for
/// an enum event, eight for a digit event), and a signature by the oracle
/// key, with auxiliary bytes `aux`, over the SHA-256 digest of the event's
/// encoding. Too few seeds mean randomness ran out.
pub fn announcement_from_seeds(
    t: EventType,
    event_id: &str,
    maturity: u32,
    oracle_seed: &[u8; 32],
    nonce_seeds: &Vec<[u8; 32]>,
    aux: &[u8; 32],
) -> (r: Result<Announcement, OracleError>)
    ensures
        nonce_seeds@.len() < spec_nonce_count(t) ==> r == Err::<Announcement, OracleError>(
            OracleError::RandomnessUnavailable,
        ),
        nonce_seeds@.len() >= spec_nonce_count(t) ==> (r is Ok <==> (secret_key_of(oracle_seed@) is Some
            && seeds_derive(nonce_seeds@, spec_nonce_count(t)))),
        r is Err ==> is_key_error(r->Err_0),
        r is Ok ==> {
            let a = r->Ok_0;
            let k = secret_key_of(oracle_seed@)->0;
            &&& a.event.event_id@ == event_id@
            &&& a.event.maturity == maturity
            &&& is_fixture_descriptor(t, a.event.descriptor)
            &&& event_wf(a.event)
            &&& a.event.nonces@.len() == spec_nonce_count(t)
            &&& forall|i: int|
                0 <= i < a.event.nonces@.len() ==> #[trigger] a.event.nonces@[i] == x_only_of(
                    spec_nonce_secret(nonce_seeds@[i]@)->0,
                )
            &&& a.oracle_public_key == x_only_of(k)
            &&& a.signature == schnorr_signature_of(spec_event_digest(a.event), keypair_of(k), aux@)
        },
{
    let count: usize = match t {
        EventType::Enum => 1,
        EventType::DigitDecomposition => FIXTURE_DIGITS as usize,
    };
    if nonce_seeds.len() < count {
        return Err(OracleError::RandomnessUnavailable);
    }
    let oracle_secret = match secret_from_bytes(oracle_seed) {
        Ok(k) => k,
        Err(_) => return Err(OracleError::KeyDerivationFailed),
    };
    let oracle_keypair = keypair_of_secret(&oracle_secret);
    let oracle_public_key = keypair_x_only(&oracle_keypair);
    let mut nonces: Vec<XOnlyPublicKey> = Vec::new();
    while nonces.len() < count
        invariant
            nonces@.len() <= count <= nonce_seeds@.len(),
            count == spec_nonce_count(t),
            forall|i: int|
                0 <= i < nonces@.len() ==> (#[trigger] spec_nonce_secret(nonce_seeds@[i]@)) is Some
                    && nonces@[i] == x_only_of(spec_nonce_secret(nonce_seeds@[i]@)->0),
        decreases count - nonces@.len(),
    {
        let i = nonces.len();
        match nonce_keypair_from_seed(&nonce_seeds[i]) {
            Ok((_, public)) => nonces.push(public),
            Err(e) => {
                assert(!seeds_derive(nonce_seeds@, spec_nonce_count(t))) by {
                    assert(spec_nonce_secret(nonce_seeds@[i as int]@) is None);
                }
                return Err(e);
            },
        }
    }
    assert(seeds_derive(nonce_seeds@, spec_nonce_count(t)));
    let descriptor = fixture_descriptor(t);
    let event = Event { nonces, maturity, descriptor, event_id: event_id.to_owned() };
    proof {
        if t == EventType::Enum {
            assert(strings_view(event.descriptor->Enum_outcomes@).len() == 3);
        }
    }
    let bytes = write_oracle_event(&event_to_dlc(&event));
    let digest = sha256_digest(bytes.as_slice());
    let signature = sign_digest(&digest, &oracle_keypair, aux);
    Ok(Announcement { oracle_public_key, event, signature })
}

/// Builds a fixture announcement, drawing its seeds and auxiliary bytes from
/// the operating system's random source.
pub fn build_announcement(t: EventType, event_id: &str, maturity: u32) -> (r: Result<
    Announcement,
    OracleError,
>)
    ensures
        r is Err ==> is_key_error(r->Err_0),
        r is Ok ==> {
            let a = r->Ok_0;
            &&& a.event.event_id@ == event_id@
            &&& a.event.maturity == maturity
            &&& is_fixture_descriptor(t, a.event.descriptor)
            &&& event_wf(a.event)
            &&& is_signed_by_its_key(a)
        },
{
    let oracle_seed = match random_seed() {
        Ok(s) => s,
        Err(_) => return Err(OracleError::RandomnessUnavailable),
    };
    let count: usize = match t {
        EventType::Enum => 1,
        EventType::DigitDecomposition => FIXTURE_DIGITS as usize,
    };
    let nonce_seeds = match draw_seeds(count) {
        Ok(s) => s,
        Err(e) => return Err(e),
    };
    let aux = match random_seed() {
        Ok(s) => s,
        Err(_) => return Err(OracleError::RandomnessUnavailable),
    };
    let r = announcement_from_seeds(t, event_id, maturity, &oracle_seed, &nonce_seeds, &aux);
    proof {
        if r is Ok {
            let a = r->Ok_0;
            let k = secret_key_of(oracle_seed@)->0;
            assert(a.oracle_public_key == x_only_of(k) && a.signature == schnorr_signature_of(
                spec_event_digest(a.event),
                keypair_of(k),
                aux@,
            ));
        }
    }
    r
}

/// Builds an attestation of `outcome` from injected randomness: the
/// attesting key from `oracle_seed`, and for the `i`-th outcome token a
/// signature, by the nonce secret that `nonce_seeds[i]` derives and with
/// auxiliary bytes `aux`, over the SHA-256 digest of the token's bytes. Too
/// few seeds mean randomness ran out.
pub fn attestation_from_seeds(
    a: &Announcement,
    outcome: &str,
    oracle_seed: &[u8; 32],
    nonce_seeds: &Vec<[u8; 32]>,
    aux: &[u8; 32],
) -> (r: Result<Attestation, OracleError>)
    ensures
        spec_outcome_tokens(a.event.descriptor, outcome@) is Err ==> r == Err::<
            Attestation,
            OracleError,
        >(spec_outcome_tokens(a.event.descriptor, outcome@)->Err_0),
        spec_outcome_tokens(a.event.descriptor, outcome@) is Ok ==> {
            let n = spec_outcome_tokens(a.event.descriptor, outcome@)->Ok_0.len();
            &&& nonce_seeds@.len() < n ==> r == Err::<Attestation, OracleError>(
                OracleError::RandomnessUnavailable,
            )
            &&& nonce_seeds@.len() >= n ==> (r is Ok <==> (secret_key_of(oracle_seed@) is Some
                && seeds_derive(nonce_seeds@, n)))
            &&& r is Err ==> is_key_error(r->Err_0)
        },
        r is Ok ==> {
            let att = r->Ok_0;
            &&& spec_outcome_tokens(a.event.descriptor, outcome@) == Ok::<
                Seq<Seq<char>>,
                OracleError,
            >(strings_view(att.outcomes@))
            &&& att.signatures@.len() == att.outcomes@.len()
            &&& att.event_id@ == a.event.event_id@
            &&& att.oracle_public_key == x_only_of(secret_key_of(oracle_seed@)->0)
            &&& forall|i: int|
                0 <= i < att.signatures@.len() ==> #[trigger] att.signatures@[i]
                    == schnorr_signature_of(
                    spec_token_digest(att.outcomes@[i]@),
                    keypair_of(spec_nonce_secret(nonce_seeds@[i]@)->0),
                    aux@,
                )
        },
{
    let tokens = match attestation_outcomes(&a.event.descriptor, outcome) {
        Ok(t) => t,
        Err(e) => {
            assert(spec_outcome_tokens(a.event.descriptor, outcome@) == Err::<
                Seq<Seq<char>>,
                OracleError,
            >(e));
            return Err(e);
        },
    };
    if nonce_seeds.len() < tokens.len() {
        return Err(OracleError::RandomnessUnavailable);
    }
    let oracle_secret = match secret_from_bytes(oracle_seed) {
        Ok(k) => k,
        Err(_) => return Err(OracleError::KeyDerivationFailed),
    };
    let oracle_public_key = secret_x_only(&oracle_secret);
    let mut signatures: Vec<Signature> = Vec::new();
    let mut i: usize = 0;
    while i < tokens.len()
        invariant
            0 <= i <= tokens@.len() <= nonce_seeds@.len(),
            signatures@.len() == i,
            spec_outcome_tokens(a.event.descriptor, outcome@) == Ok::<Seq<Seq<char>>, OracleError>(
                strings_view(tokens@),
            ),
            forall|j: int|
                0 <= j < i ==> (#[trigger] spec_nonce_secret(nonce_seeds@[j]@)) is Some
                    && signatures@[j] == schnorr_signature_of(
                    spec_token_digest(tokens@[j]@),
                    keypair_of(spec_nonce_secret(nonce_seeds@[j]@)->0),
                    aux@,
                ),
        decreases tokens@.len() - i,
    {
        let nonce_secret = match nonce_keypair_from_seed(&nonce_seeds[i]) {
            Ok((secret, _)) => secret,
            Err(e) => {
                assert(!seeds_derive(nonce_seeds@, tokens@.len() as nat)) by {
                    assert(spec_nonce_secret(nonce_seeds@[i as int]@) is None);
                }
                return Err(e);
            },
        };
        let digest = sha256_digest(tokens[i].as_str().as_bytes());
        let nonce_keypair = keypair_of_secret(&nonce_secret);
        signatures.push(sign_digest(&digest, &nonce_keypair, aux));
        i = i + 1;
    }
    assert(seeds_derive(nonce_seeds@, tokens@.len() as nat));
    Ok(
        Attestation {
            event_id: a.event.event_id.clone(),
            oracle_public_key,
            signatures,
            outcomes: tokens,
        },
    )
}

/// Builds an attestation of `outcome`, drawing its seeds and auxiliary bytes
/// from the operating system's random source.
pub fn build_attestation(a: &Announcement, outcome: &str) -> (r: Result<Attestation, OracleError>)
    ensures
        spec_outcome_tokens(a.event.descriptor, outcome@) is Err ==> r == Err::<
            Attestation,
            OracleError,
        >(spec_outcome_tokens(a.event.descriptor, outcome@)->Err_0),
        spec_outcome_tokens(a.event.descriptor, outcome@) is Ok && r is Err ==> is_key_error(
            r->Err_0,
        ),
        r is Ok ==> {
            let att = r->Ok_0;
            &&& spec_outcome_tokens(a.event.descriptor, outcome@) == Ok::<
                Seq<Seq<char>>,
                OracleError,
            >(strings_view(att.outcomes@))
            &&& att.signatures@.len() == att.outcomes@.len()
            &&& att.event_id@ == a.event.event_id@
            &&& is_attested_by_keys(att)
        },
{
    let n: usize = match attestation_outcomes(&a.event.descriptor, outcome) {
        Ok(t) => t.len(),
        Err(e) => {
            assert(spec_outcome_tokens(a.event.descriptor, outcome@) == Err::<
                Seq<Seq<char>>,
                OracleError,
            >(e));
            return Err(e);
        },
    };
    let oracle_seed = match random_seed() {
        Ok(s) => s,
        Err(_) => return Err(OracleError::RandomnessUnavailable),
    };
    let nonce_seeds = match draw_seeds(n) {
        Ok(s) => s,
        Err(e) => return Err(e),
    };
    let aux = match random_seed() {
        Ok(s) => s,
        Err(_) => return Err(OracleError::RandomnessUnavailable),
    };
    let r = attestation_from_seeds(a, outcome, &oracle_seed, &nonce_seeds, &aux);
    proof {
        if r is Ok {
            let att = r->Ok_0;
            let k = secret_key_of(oracle_seed@)->0;
            let ks = Seq::new(
                att.signatures@.len(),
                |i: int| spec_nonce_secret(nonce_seeds@[i]@)->0,
            );
            assert(signs_tokens(att, ks, aux@));
            assert(att.oracle_public_key == x_only_of(k));
        }
    }
    r
}

/// Reads announcement bytes: a TLV record first; failing that, and behind
/// the announcement type id, a legacy body.
pub fn read_announcement(b: &[u8]) -> (r: Result<Announcement, OracleError>)
    ensures
        match spec_read_announcement(b@) {
            Ok(v) => r is Ok && spec_announcement_to_dlc(r->Ok_0) == v && announcement_reads(
                r->Ok_0,
                v,
            ),
            Err(e) => r == Err::<Announcement, OracleError>(e),
        },
{
    if b.len() < 2 {
        return Err(OracleError::AnnouncementTooShort);
    }
    match read_announcement_tlv(b) {
        Ok(a) => Ok(announcement_from_dlc(a)),
        Err(_) => {
            let id = match leading_id(b) {
                Some(id) => id,
                None => return Err(OracleError::AnnouncementTooShort),
            };
            if id != ANNOUNCEMENT_TYPE_ID {
                return Err(OracleError::UnexpectedType(id));
            }
            match read_announcement_body(body_of(b)) {
                Ok(a) => Ok(announcement_from_dlc(a)),
                Err(_) => Err(OracleError::InvalidAnnouncement),
            }
        },
    }
}

/// Encodes an announcement as an oracle-announcement TLV record.
pub fn encode_announcement(a: &Announcement) -> (r: Vec<u8>)
    ensures
        r@ == announcement_tlv_bytes(spec_announcement_to_dlc(*a)),
{
    match encode(&Message::OracleAnnouncement(announcement_to_dlc(a))) {
        Ok(b) => b,
        Err(_) => Vec::new(),
    }
}

/// Encodes an attestation as an oracle-attestation TLV record; one whose
/// signatures and outcomes differ in number is malformed.
pub fn encode_attestation(a: &Attestation) -> (r: Result<Vec<u8>, CodecError>)
    ensures
        a.signatures@.len() == a.outcomes@.len() ==> r == Ok::<Vec<u8>, CodecError>(r->Ok_0)
            && r->Ok_0@ == attestation_tlv_bytes(spec_attestation_to_dlc(*a)),
        a.signatures@.len() != a.outcomes@.len() ==> r == Err::<Vec<u8>, CodecError>(
            CodecError::MalformedValue,
        ),
{
    encode(&Message::OracleAttestation(attestation_to_dlc(a)))
}

/// Builds a fixture announcement for the named event type, and gives it
/// with the hexadecimal text of its TLV encoding.
pub fn create_oracle_announcement(event_type: &str, event_id: &str, maturity: u32) -> (r: Result<
    (Announcement, String),
    OracleError,
>)
    ensures
        spec_event_type_named(event_type@) is None ==> r == Err::<
            (Announcement, String),
            OracleError,
        >(OracleError::UnsupportedEventType),
        r is Err && spec_event_type_named(event_type@) is Some ==> is_key_error(r->Err_0),
        r is Ok ==> {
            let a = r->Ok_0.0;
            &&& spec_event_type_named(event_type@) is Some
            &&& a.event.event_id@ == event_id@
            &&& a.event.maturity == maturity
            &&& is_fixture_descriptor(spec_event_type_named(event_type@)->0, a.event.descriptor)
            &&& event_wf(a.event)
            &&& is_signed_by_its_key(a)
            &&& r->Ok_0.1@ == hex_text(announcement_tlv_bytes(spec_announcement_to_dlc(a)))
        },
{
    let t = match EventType::from_name(event_type) {
        Some(t) => t,
        None => return Err(OracleError::UnsupportedEventType),
    };
    let a = match build_announcement(t, event_id, maturity) {
        Ok(a) => a,
        Err(e) => return Err(e),
    };
    let bytes = encode_announcement(&a);
    let text = encode_hex(bytes.as_slice());
    Ok((a, text))
}

/// Reads an announcement from hexadecimal text, attests `outcome` for its
/// event, and gives the attestation with the hexadecimal text of its TLV
/// encoding.
pub fn create_oracle_attestation(announcement_hex: &str, outcome: &str) -> (r: Result<
    (Attestation, String),
    OracleError,
>)
    ensures
        !is_hex_text(announcement_hex@) <==> r == Err::<(Attestation, String), OracleError>(
            OracleError::InvalidHex,
        ),
        is_hex_text(announcement_hex@) && spec_read_announcement(hex_bytes(announcement_hex@)) is Err
            ==> r == Err::<(Attestation, String), OracleError>(
            spec_read_announcement(hex_bytes(announcement_hex@))->Err_0,
        ),
        is_hex_text(announcement_hex@) && spec_read_announcement(hex_bytes(announcement_hex@)) is Ok
            ==> {
            let v = spec_read_announcement(hex_bytes(announcement_hex@))->Ok_0;
            let tokens = spec_dlc_outcome_tokens(
                event_descriptor_of(announcement_event_of(v)),
                outcome@,
            );
            &&& tokens is Err ==> r == Err::<(Attestation, String), OracleError>(tokens->Err_0)
            &&& tokens is Ok && r is Err ==> is_key_error(r->Err_0)
            &&& r is Ok ==> {
                let att = r->Ok_0.0;
                &&& tokens == Ok::<Seq<Seq<char>>, OracleError>(strings_view(att.outcomes@))
                &&& att.event_id@ == event_id_of(announcement_event_of(v))
                &&& att.signatures@.len() == att.outcomes@.len()
                &&& is_attested_by_keys(att)
                &&& r->Ok_0.1@ == hex_text(attestation_tlv_bytes(spec_attestation_to_dlc(att)))
            }
        },
        r is Ok ==> is_hex_text(announcement_hex@) && spec_read_announcement(
            hex_bytes(announcement_hex@),
        ) is Ok,
{
    let bytes = match decode_hex(announcement_hex) {
        Ok(b) => b,
        Err(_) => return Err(OracleError::InvalidHex),
    };
    let a = match read_announcement(bytes.as_slice()) {
        Ok(a) => a,
        Err(e) => return Err(e),
    };
    proof {
        let v = spec_read_announcement(hex_bytes(announcement_hex@))->Ok_0;
        lemma_matching_descriptors_tokens(
            event_descriptor_of(announcement_event_of(v)),
            a.event.descriptor,
            outcome@,
        );
    }
    let att = match build_attestation(&a, outcome) {
        Ok(att) => att,
        Err(e) => return Err(e),
    };
    match encode_attestation(&att) {
        Ok(b) => Ok((att, encode_hex(b.as_slice()))),
        Err(e) => Err(OracleError::Encoding(e)),
    }
}

} // verus!
