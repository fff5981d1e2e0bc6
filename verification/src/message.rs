//! Netlink messages: the framing of a request, and the reading of the headers
//! and first fields of the messages that come back.
use vstd::prelude::*;
use crate::wire::{
    align4, as_signed, get_u16, get_u32, le16, le16_at, le32, le32_at, lemma_le16_roundtrip,
    lemma_le32_roundtrip, pad, padded, put_bytes, put_u16, put_u32, to_signed, HEADER_LEN,
};

verus! {

/// The longest request body that this library frames.
pub const MAX_BODY_LEN: usize = 0x7FFF_FFE0;

/// A framed message: total length, type, flags, sequence number, a zero
/// sender id, and the body padded to a multiple of four.
pub open spec fn frame(kind: u16, flags: u16, seq: u32, body: Seq<u8>) -> Seq<u8> {
    le32((HEADER_LEN + align4(body.len() as int)) as u32) + le16(kind) + le16(flags) + le32(seq)
        + le32(0) + padded(body)
}

/// Frames a request.
pub fn encode_frame(kind: u16, flags: u16, seq: u32, body: &[u8]) -> (out: Vec<u8>)
    requires
        body@.len() <= MAX_BODY_LEN,
    ensures
        out@ == frame(kind, flags, seq, body@),
{
    let mut padded_body: Vec<u8> = Vec::new();
    put_bytes(&mut padded_body, body);
    pad(&mut padded_body);
    assert(padded_body@ =~= padded(body@));
    let total: u32 = (HEADER_LEN + padded_body.len()) as u32;
    let mut out: Vec<u8> = Vec::new();
    put_u32(&mut out, total);
    put_u16(&mut out, kind);
    put_u16(&mut out, flags);
    put_u32(&mut out, seq);
    put_u32(&mut out, 0);
    put_bytes(&mut out, padded_body.as_slice());
    assert(out@ =~= frame(kind, flags, seq, body@));
    out
}

/// The header of a netlink message.
#[derive(Debug, Clone, Copy, PartialEq, Eq)]
pub struct Header {
    /// Length of the message, header included, padding not.
    pub len: u32,
    /// Message type.
    pub kind: u16,
    /// Flag bits.
    pub flags: u16,
    /// Sequence number: that of the request which the message answers.
    pub seq: u32,
    /// Sender's port id.
    pub pid: u32,
}

/// The header fields read from the sixteen bytes that start at `at`.
pub open spec fn header_at(buf: Seq<u8>, at: int) -> Header {
    Header {
        len: le32_at(buf, at),
        kind: le16_at(buf, at + 4),
        flags: le16_at(buf, at + 6),
        seq: le32_at(buf, at + 8),
        pid: le32_at(buf, at + 12),
    }
}

/// A whole message lies at `at`: a header fits, and the length it declares
/// covers at least the header and at most what is left of the buffer.
pub open spec fn framed_at(buf: Seq<u8>, at: int) -> bool {
    &&& 0 <= at
    &&& at + HEADER_LEN <= buf.len()
    &&& HEADER_LEN <= le32_at(buf, at)
    &&& at + le32_at(buf, at) <= buf.len()
}

/// Reads the header of the message at `at`, if a whole message lies there.
pub fn read_header(buf: &[u8], at: usize) -> (r: Option<Header>)
    requires
        at <= buf@.len(),
    ensures
        r == if framed_at(buf@, at as int) {
            Some(header_at(buf@, at as int))
        } else {
            None::<Header>
        },
{
    let left: usize = buf.len() - at;
    if left < HEADER_LEN {
        return None;
    }
    let len: u32 = get_u32(buf, at);
    if len < 16 || len as usize > left {
        return None;
    }
    Some(
        Header {
            len,
            kind: get_u16(buf, at + 4),
            flags: get_u16(buf, at + 6),
            seq: get_u32(buf, at + 8),
            pid: get_u32(buf, at + 12),
        },
    )
}

/// The header that `frame` writes is the header that `read_header` finds:
/// type, flags and sequence number come back as they went in.
pub proof fn lemma_frame_header(kind: u16, flags: u16, seq: u32, body: Seq<u8>)
    requires
        body.len() <= MAX_BODY_LEN,
    ensures
        frame(kind, flags, seq, body).len() == HEADER_LEN + align4(body.len() as int),
        framed_at(frame(kind, flags, seq, body), 0),
        header_at(frame(kind, flags, seq, body), 0) == (Header {
            len: (HEADER_LEN + align4(body.len() as int)) as u32,
            kind,
            flags,
            seq,
            pid: 0,
        }),
        frame(kind, flags, seq, body).subrange(
            HEADER_LEN as int,
            frame(kind, flags, seq, body).len() as int,
        ) == padded(body),
{
    let total = (HEADER_LEN + align4(body.len() as int)) as u32;
    let head = le32(total) + le16(kind) + le16(flags) + le32(seq) + le32(0);
    let f = frame(kind, flags, seq, body);
    assert(f =~= head + padded(body));
    assert(head.len() == 16);
    assert(head[0] == le32(total)[0] && head[1] == le32(total)[1] && head[2] == le32(total)[2]
        && head[3] == le32(total)[3]);
    assert(head[4] == le16(kind)[0] && head[5] == le16(kind)[1]);
    assert(head[6] == le16(flags)[0] && head[7] == le16(flags)[1]);
    assert(head[8] == le32(seq)[0] && head[9] == le32(seq)[1] && head[10] == le32(seq)[2]
        && head[11] == le32(seq)[3]);
    assert(head[12] == 0 && head[13] == 0 && head[14] == 0 && head[15] == 0);
    assert(forall|i: int| 0 <= i < 16 ==> f[i] == head[i]);
    lemma_le32_roundtrip(total);
    lemma_le32_roundtrip(seq);
    lemma_le16_roundtrip(kind);
    lemma_le16_roundtrip(flags);
    assert(le32_at(f, 0) == total);
    assert(le16_at(f, 4) == kind);
    assert(le16_at(f, 6) == flags);
    assert(le32_at(f, 8) == seq);
    assert(le32_at(f, 12) == 0);
    assert(f.subrange(HEADER_LEN as int, f.len() as int) =~= padded(body));
}

/// The signed code that an acknowledgement or error message carries: the
/// first field of its payload.
pub open spec fn error_code_at(buf: Seq<u8>, at: int) -> i32 {
    as_signed(le32_at(buf, at + HEADER_LEN))
}

/// The link index that a link message carries in its fixed header.
pub open spec fn link_index_at(buf: Seq<u8>, at: int) -> u32 {
    le32_at(buf, at + HEADER_LEN + 4)
}

/// Reads the code of the acknowledgement or error message at `at`.
pub fn read_error_code(buf: &[u8], at: usize) -> (code: i32)
    requires
        at + HEADER_LEN + 4 <= buf@.len(),
    ensures
        code == error_code_at(buf@, at as int),
{
    let end: usize = buf.len();
    assert(at + HEADER_LEN + 4 <= end);
    to_signed(get_u32(buf, at + HEADER_LEN))
}

/// Reads the link index of the link message at `at`.
pub fn read_link_index(buf: &[u8], at: usize) -> (index: u32)
    requires
        at + HEADER_LEN + 8 <= buf@.len(),
    ensures
        index == link_index_at(buf@, at as int),
{
    let end: usize = buf.len();
    assert(at + HEADER_LEN + 8 <= end);
    get_u32(buf, at + HEADER_LEN + 4)
}

} // verus!
