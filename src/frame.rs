//! The two-byte type-id prefix of fixed-prefixed messages.

use vstd::prelude::*;

verus! {

/// The big-endian bytes of a 16-bit value.
pub open spec fn be16_bytes(v: u16) -> Seq<u8> {
    seq![(v / 256) as u8, (v % 256) as u8]
}

/// The 16-bit value of two big-endian bytes.
pub open spec fn be16_value(hi: u8, lo: u8) -> u16 {
    (hi as int * 256 + lo as int) as u16
}

/// The leading 16-bit big-endian value of a buffer, if it has two bytes.
pub open spec fn spec_leading_id(b: Seq<u8>) -> Option<u16> {
    if b.len() >= 2 {
        Some(be16_value(b[0], b[1]))
    } else {
        None
    }
}

/// A body behind a type-id prefix.
pub open spec fn spec_framed(id: u16, body: Seq<u8>) -> Seq<u8> {
    be16_bytes(id) + body
}

/// What follows the two-byte prefix.
pub open spec fn spec_body_of(b: Seq<u8>) -> Seq<u8> {
    b.subrange(2, b.len() as int)
}

/// Reading the prefix back gives the identifier that was written.
pub proof fn lemma_be16_round_trip(v: u16)
    ensures
        be16_value(be16_bytes(v)[0], be16_bytes(v)[1]) == v,
{
}

/// A framed body reads back as the identifier and the body that were framed.
pub proof fn lemma_frame_round_trip(id: u16, body: Seq<u8>)
    ensures
        spec_leading_id(spec_framed(id, body)) == Some(id),
        spec_body_of(spec_framed(id, body)) == body,
{
    assert(spec_body_of(spec_framed(id, body)) =~= body);
}

/// Reads the leading 16-bit big-endian value of a buffer.
pub fn leading_id(b: &[u8]) -> (r: Option<u16>)
    ensures
        r == spec_leading_id(b@),
{
    if b.len() >= 2 {
        let hi = b[0] as u16;
        let lo = b[1] as u16;
        Some(hi * 256 + lo)
    } else {
        None
    }
}

/// The bytes after the two-byte prefix.
pub fn body_of(b: &[u8]) -> (r: &[u8])
    requires
        b@.len() >= 2,
    ensures
        r@ == spec_body_of(b@),
{
    vstd::slice::slice_subrange(b, 2, b.len())
}

/// Writes a type id in big-endian order, then the body.
pub fn frame(id: u16, body: &[u8]) -> (r: Vec<u8>)
    ensures
        r@ == spec_framed(id, body@),
{
    let mut out: Vec<u8> = Vec::new();
    out.push((id / 256) as u8);
    out.push((id % 256) as u8);
    let mut i: usize = 0;
    while i < body.len()
        invariant
            0 <= i <= body@.len(),
            out@ == be16_bytes(id) + body@.subrange(0, i as int),
        decreases body@.len() - i,
    {
        out.push(body[i]);
        i = i + 1;
        assert(out@ =~= be16_bytes(id) + body@.subrange(0, i as int));
    }
    assert(body@.subrange(0, body@.len() as int) =~= body@);
    out
}

} // verus!
