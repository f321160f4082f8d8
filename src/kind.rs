//! The message kinds this library knows, with their wire identifiers.

use vstd::prelude::*;

verus! {

/// Type identifier of an offer message.
pub const OFFER_TYPE_ID: u16 = 42778;

/// Type identifier of an accept message.
pub const ACCEPT_TYPE_ID: u16 = 42780;

/// Type identifier of a sign message.
pub const SIGN_TYPE_ID: u16 = 42782;

/// Type identifier of an oracle announcement.
pub const ANNOUNCEMENT_TYPE_ID: u16 = 55332;

/// Type identifier of an oracle attestation.
pub const ATTESTATION_TYPE_ID: u16 = 55400;

/// How a kind is laid out on the wire.
#[derive(Clone, Copy, Debug, PartialEq, Eq, Structural)]
pub enum EncodingStyle {
    /// A two-byte big-endian type id, then the body.
    FixedPrefixed,
    /// A nested tag-length-value record that carries its own tag.
    Tlv,
    /// The body alone, with no prefix of any kind.
    Bare,
}

/// The nine message kinds.
#[derive(Clone, Copy, Debug, PartialEq, Eq, Structural)]
pub enum MessageKind {
    Offer,
    Accept,
    Sign,
    OracleAnnouncement,
    OracleAttestation,
    OracleEvent,
    OracleInfo,
    ContractInfo,
    ContractDescriptor,
}

/// The type identifier of a kind, if it has one.
pub open spec fn spec_type_id(k: MessageKind) -> Option<u16> {
    match k {
        MessageKind::Offer => Some(OFFER_TYPE_ID),
        MessageKind::Accept => Some(ACCEPT_TYPE_ID),
        MessageKind::Sign => Some(SIGN_TYPE_ID),
        MessageKind::OracleAnnouncement => Some(ANNOUNCEMENT_TYPE_ID),
        MessageKind::OracleAttestation => Some(ATTESTATION_TYPE_ID),
        _ => None,
    }
}

/// The encoding style of a kind.
pub open spec fn spec_style(k: MessageKind) -> EncodingStyle {
    match k {
        MessageKind::Offer | MessageKind::Accept | MessageKind::Sign => EncodingStyle::FixedPrefixed,
        MessageKind::OracleAnnouncement | MessageKind::OracleAttestation => EncodingStyle::Tlv,
        _ => EncodingStyle::Bare,
    }
}

/// The human-readable name of a kind.
pub open spec fn spec_name(k: MessageKind) -> Seq<char> {
    match k {
        MessageKind::Offer => "offer"@,
        MessageKind::Accept => "accept"@,
        MessageKind::Sign => "sign"@,
        MessageKind::OracleAnnouncement => "oracle-announcement"@,
        MessageKind::OracleAttestation => "oracle-attestation"@,
        MessageKind::OracleEvent => "oracle-event"@,
        MessageKind::OracleInfo => "oracle-info"@,
        MessageKind::ContractInfo => "contract-info"@,
        MessageKind::ContractDescriptor => "contract-descriptor"@,
    }
}

/// The kind whose name is `s`, if any.
pub open spec fn spec_kind_named(s: Seq<char>) -> Option<MessageKind> {
    if s == "offer"@ {
        Some(MessageKind::Offer)
    } else if s == "accept"@ {
        Some(MessageKind::Accept)
    } else if s == "sign"@ {
        Some(MessageKind::Sign)
    } else if s == "oracle-announcement"@ {
        Some(MessageKind::OracleAnnouncement)
    } else if s == "oracle-attestation"@ {
        Some(MessageKind::OracleAttestation)
    } else if s == "oracle-event"@ {
        Some(MessageKind::OracleEvent)
    } else if s == "oracle-info"@ {
        Some(MessageKind::OracleInfo)
    } else if s == "contract-info"@ {
        Some(MessageKind::ContractInfo)
    } else if s == "contract-descriptor"@ {
        Some(MessageKind::ContractDescriptor)
    } else {
        None
    }
}

/// The kind that carries a given type identifier, if any.
pub open spec fn spec_kind_with_id(id: u16) -> Option<MessageKind> {
    if id == OFFER_TYPE_ID {
        Some(MessageKind::Offer)
    } else if id == ACCEPT_TYPE_ID {
        Some(MessageKind::Accept)
    } else if id == SIGN_TYPE_ID {
        Some(MessageKind::Sign)
    } else if id == ANNOUNCEMENT_TYPE_ID {
        Some(MessageKind::OracleAnnouncement)
    } else if id == ATTESTATION_TYPE_ID {
        Some(MessageKind::OracleAttestation)
    } else {
        None
    }
}

/// Distinct kinds never share a type identifier, and each identifier
/// leads back to the kind that carries it.
pub proof fn lemma_type_id_inverse(k: MessageKind)
    ensures
        spec_type_id(k) is Some ==> spec_kind_with_id(spec_type_id(k)->0) == Some(k),
        spec_type_id(k) is None <==> spec_style(k) == EncodingStyle::Bare,
{
}

impl MessageKind {
    /// The type identifier of this kind; component kinds have none.
    pub fn type_id(&self) -> (r: Option<u16>)
        ensures
            r == spec_type_id(*self),
    {
        match self {
            MessageKind::Offer => Some(OFFER_TYPE_ID),
            MessageKind::Accept => Some(ACCEPT_TYPE_ID),
            MessageKind::Sign => Some(SIGN_TYPE_ID),
            MessageKind::OracleAnnouncement => Some(ANNOUNCEMENT_TYPE_ID),
            MessageKind::OracleAttestation => Some(ATTESTATION_TYPE_ID),
            _ => None,
        }
    }

    /// How this kind is laid out on the wire.
    pub fn style(&self) -> (r: EncodingStyle)
        ensures
            r == spec_style(*self),
    {
        match self {
            MessageKind::Offer | MessageKind::Accept | MessageKind::Sign => EncodingStyle::FixedPrefixed,
            MessageKind::OracleAnnouncement | MessageKind::OracleAttestation => EncodingStyle::Tlv,
            _ => EncodingStyle::Bare,
        }
    }

    /// The human-readable name of this kind.
    pub fn name(&self) -> (r: &'static str)
        ensures
            r@ == spec_name(*self),
    {
        match self {
            MessageKind::Offer => "offer",
            MessageKind::Accept => "accept",
            MessageKind::Sign => "sign",
            MessageKind::OracleAnnouncement => "oracle-announcement",
            MessageKind::OracleAttestation => "oracle-attestation",
            MessageKind::OracleEvent => "oracle-event",
            MessageKind::OracleInfo => "oracle-info",
            MessageKind::ContractInfo => "contract-info",
            MessageKind::ContractDescriptor => "contract-descriptor",
        }
    }

    /// The kind with the given name, if any.
    pub fn from_name(s: &str) -> (r: Option<MessageKind>)
        ensures
            r == spec_kind_named(s@),
    {
        let all: [MessageKind; 9] = [
            MessageKind::Offer,
            MessageKind::Accept,
            MessageKind::Sign,
            MessageKind::OracleAnnouncement,
            MessageKind::OracleAttestation,
            MessageKind::OracleEvent,
            MessageKind::OracleInfo,
            MessageKind::ContractInfo,
            MessageKind::ContractDescriptor,
        ];
        let mut i: usize = 0;
        while i < 9
            invariant
                0 <= i <= 9,
                all@ == seq![
                    MessageKind::Offer,
                    MessageKind::Accept,
                    MessageKind::Sign,
                    MessageKind::OracleAnnouncement,
                    MessageKind::OracleAttestation,
                    MessageKind::OracleEvent,
                    MessageKind::OracleInfo,
                    MessageKind::ContractInfo,
                    MessageKind::ContractDescriptor,
                ],
                forall|j: int| 0 <= j < i ==> s@ != spec_name(#[trigger] all@[j]),
            decreases 9 - i,
        {
            let k = all[i];
            if str_equal(s, k.name()) {
                return Some(k);
            }
            i = i + 1;
        }
        None
    }

    /// The kind that carries the given type identifier, if any.
    pub fn from_type_id(id: u16) -> (r: Option<MessageKind>)
        ensures
            r == spec_kind_with_id(id),
    {
        if id == OFFER_TYPE_ID {
            Some(MessageKind::Offer)
        } else if id == ACCEPT_TYPE_ID {
            Some(MessageKind::Accept)
        } else if id == SIGN_TYPE_ID {
            Some(MessageKind::Sign)
        } else if id == ANNOUNCEMENT_TYPE_ID {
            Some(MessageKind::OracleAnnouncement)
        } else if id == ATTESTATION_TYPE_ID {
            Some(MessageKind::OracleAttestation)
        } else {
            None
        }
    }
}

/// Character-by-character equality of two strings.
pub fn str_equal(a: &str, b: &str) -> (r: bool)
    ensures
        r == (a@ == b@),
{
    let n = a.unicode_len();
    if n != b.unicode_len() {
        return false;
    }
    let mut i: usize = 0;
    while i < n
        invariant
            n == a@.len(),
            n == b@.len(),
            0 <= i <= n,
            forall|j: int| 0 <= j < i ==> a@[j] == b@[j],
        decreases n - i,
    {
        if a.get_char(i) != b.get_char(i) {
            return false;
        }
        i = i + 1;
    }
    assert(a@ =~= b@);
    true
}

} // verus!
