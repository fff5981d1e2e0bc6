//! Routing attributes: the type-length-value fields that follow the fixed
//! header of a routing message. An attribute may carry other attributes as its
//! payload; each level then has a length of its own.
use vstd::prelude::*;
use crate::wire::{align4, le16, le16_at, pad, padded, put_bytes, put_u16, zeros, ATTR_HEADER_LEN};

verus! {

/// The longest payload whose attribute length still fits the 16-bit length field.
pub const MAX_ATTR_PAYLOAD: usize = 65531;

/// The encoding of one attribute: its length (header and payload, without
/// padding), its type, the payload, and zero bytes up to a multiple of four.
pub open spec fn attr(kind: u16, payload: Seq<u8>) -> Seq<u8> {
    padded(le16((ATTR_HEADER_LEN + payload.len()) as u16) + le16(kind) + payload)
}

/// A text payload: the bytes of the text and a terminating zero byte.
pub open spec fn text(bytes: Seq<u8>) -> Seq<u8> {
    bytes + seq![0u8]
}

/// An encoded attribute is aligned, and holds its header, its payload and
/// fewer than four bytes of padding.
pub proof fn lemma_attr_len(kind: u16, payload: Seq<u8>)
    ensures
        attr(kind, payload).len() == align4(ATTR_HEADER_LEN + payload.len()),
        attr(kind, payload).len() % 4 == 0,
        ATTR_HEADER_LEN + payload.len() <= attr(kind, payload).len() < ATTR_HEADER_LEN
            + payload.len() + 4,
{
}

/// The length field of a nested attribute covers the whole encoding of the
/// attribute inside it, padding included, and the inner attribute starts right
/// behind the outer header.
pub proof fn lemma_nested_attr(outer: u16, inner: u16, payload: Seq<u8>)
    requires
        payload.len() + 2 * ATTR_HEADER_LEN + 3 <= 0xFFFF,
    ensures
        le16_at(attr(outer, attr(inner, payload)), 0) == ATTR_HEADER_LEN + attr(
            inner,
            payload,
        ).len(),
        attr(outer, attr(inner, payload)).subrange(
            ATTR_HEADER_LEN as int,
            attr(outer, attr(inner, payload)).len() as int,
        ) == attr(inner, payload),
{
    let inside = attr(inner, payload);
    lemma_attr_len(inner, payload);
    let whole = attr(outer, inside);
    let unpadded = le16((ATTR_HEADER_LEN + inside.len()) as u16) + le16(outer) + inside;
    assert(zeros(0) =~= Seq::<u8>::empty());
    assert(whole =~= unpadded);
    assert(whole.subrange(ATTR_HEADER_LEN as int, whole.len() as int) =~= inside);
}

/// Encodes one attribute.
pub fn encode_attr(kind: u16, payload: &[u8]) -> (out: Vec<u8>)
    requires
        payload@.len() <= MAX_ATTR_PAYLOAD,
    ensures
        out@ == attr(kind, payload@),
{
    let mut out: Vec<u8> = Vec::new();
    let len: u16 = (ATTR_HEADER_LEN + payload.len()) as u16;
    put_u16(&mut out, len);
    put_u16(&mut out, kind);
    put_bytes(&mut out, payload);
    assert(out@ =~= le16(len) + le16(kind) + payload@);
    pad(&mut out);
    out
}

/// Encodes an attribute whose payload is a zero-terminated text.
pub fn encode_text_attr(kind: u16, bytes: &[u8]) -> (out: Vec<u8>)
    requires
        bytes@.len() < MAX_ATTR_PAYLOAD,
    ensures
        out@ == attr(kind, text(bytes@)),
{
    let mut payload: Vec<u8> = Vec::new();
    put_bytes(&mut payload, bytes);
    payload.push(0u8);
    assert(payload@ =~= text(bytes@));
    encode_attr(kind, payload.as_slice())
}

} // verus!
