//! Byte-level building blocks of the routing netlink protocol: the numeric
//! constants of the Linux headers, little-endian integer fields, and the
//! four-byte alignment that every message and attribute obeys.
//!
//! Netlink fields are in host byte order. This library lays them out
//! little-endian, the byte order of the hosts it is meant for.
use vstd::prelude::*;

verus! {

/// Netlink control message: an acknowledgement or an error (`NLMSG_ERROR`).
pub const NLMSG_ERROR: u16 = 2;

/// Routing message: create a link, or describe one (`RTM_NEWLINK`).
pub const RTM_NEWLINK: u16 = 16;

/// Routing message: ask for a link (`RTM_GETLINK`).
pub const RTM_GETLINK: u16 = 18;

/// Routing message: assign an address (`RTM_NEWADDR`).
pub const RTM_NEWADDR: u16 = 20;

/// Header flag carried by every request (`NLM_F_REQUEST`).
pub const NLM_F_REQUEST: u16 = 0x001;

/// Header flag asking the kernel to acknowledge (`NLM_F_ACK`).
pub const NLM_F_ACK: u16 = 0x004;

/// Header flag: fail if the object exists already (`NLM_F_EXCL`).
pub const NLM_F_EXCL: u16 = 0x200;

/// Header flag: create the object if it does not exist (`NLM_F_CREATE`).
pub const NLM_F_CREATE: u16 = 0x400;

/// Link attribute holding the interface name (`IFLA_IFNAME`).
pub const IFLA_IFNAME: u16 = 3;

/// Link attribute holding nested link-type information (`IFLA_LINKINFO`).
pub const IFLA_LINKINFO: u16 = 18;

/// Nested attribute naming the link type (`IFLA_INFO_KIND`).
pub const IFLA_INFO_KIND: u16 = 1;

/// Address attribute holding the prefix address (`IFA_ADDRESS`).
pub const IFA_ADDRESS: u16 = 1;

/// Address attribute holding the local address (`IFA_LOCAL`).
pub const IFA_LOCAL: u16 = 2;

/// Address family of IPv4 (`AF_INET`).
pub const AF_INET: u8 = 2;

/// Address family of IPv6 (`AF_INET6`).
pub const AF_INET6: u8 = 10;

/// Address scope "site" (`RT_SCOPE_SITE`).
pub const RT_SCOPE_SITE: u8 = 200;

/// Interface flag "administratively up" (`IFF_UP`).
pub const IFF_UP: u32 = 0x1;

/// Length of the netlink message header (`struct nlmsghdr`).
pub const HEADER_LEN: usize = 16;

/// Length of an attribute header (`struct rtattr`).
pub const ATTR_HEADER_LEN: usize = 4;

/// The two bytes of a 16-bit field, low byte first.
pub open spec fn le16(x: u16) -> Seq<u8> {
    seq![(x % 256) as u8, (x / 256) as u8]
}

/// The four bytes of a 32-bit field, low byte first.
pub open spec fn le32(x: u32) -> Seq<u8> {
    seq![
        (x % 256) as u8,
        (x / 256 % 256) as u8,
        (x / 65536 % 256) as u8,
        (x / 16777216) as u8,
    ]
}

/// The 16-bit field that starts at `at`.
pub open spec fn le16_at(buf: Seq<u8>, at: int) -> u16 {
    (buf[at] as int + 256 * (buf[at + 1] as int)) as u16
}

/// The 32-bit field that starts at `at`.
pub open spec fn le32_at(buf: Seq<u8>, at: int) -> u32 {
    (buf[at] as int + 256 * (buf[at + 1] as int) + 65536 * (buf[at + 2] as int) + 16777216 * (
    buf[at + 3] as int)) as u32
}

/// The signed reading of a 32-bit field (two's complement).
pub open spec fn as_signed(x: u32) -> i32 {
    if x < 0x8000_0000 {
        x as i32
    } else {
        (x as int - 0x1_0000_0000) as i32
    }
}

/// `n` rounded up to the next multiple of four.
pub open spec fn align4(n: int) -> int {
    (n + 3) / 4 * 4
}

/// `n` zero bytes.
pub open spec fn zeros(n: int) -> Seq<u8> {
    Seq::new(n as nat, |i: int| 0u8)
}

/// `bytes` followed by the zero bytes that bring its length to a multiple of four.
pub open spec fn padded(bytes: Seq<u8>) -> Seq<u8> {
    bytes + zeros(align4(bytes.len() as int) - bytes.len())
}

/// Reading back a 16-bit field gives the value that was written.
pub proof fn lemma_le16_roundtrip(x: u16)
    ensures
        le16(x).len() == 2,
        le16_at(le16(x), 0) == x,
{
}

/// Reading back a 32-bit field gives the value that was written.
pub proof fn lemma_le32_roundtrip(x: u32)
    ensures
        le32(x).len() == 4,
        le32_at(le32(x), 0) == x,
{
}

/// Appends a 16-bit field.
pub fn put_u16(out: &mut Vec<u8>, x: u16)
    ensures
        final(out)@ == old(out)@ + le16(x),
{
    out.push((x % 256) as u8);
    out.push((x / 256) as u8);
    assert(final(out)@ =~= old(out)@ + le16(x));
}

/// Appends a 32-bit field.
pub fn put_u32(out: &mut Vec<u8>, x: u32)
    ensures
        final(out)@ == old(out)@ + le32(x),
{
    out.push((x % 256) as u8);
    out.push((x / 256 % 256) as u8);
    out.push((x / 65536 % 256) as u8);
    out.push((x / 16777216) as u8);
    assert(final(out)@ =~= old(out)@ + le32(x));
}

/// Appends a copy of `bytes`.
pub fn put_bytes(out: &mut Vec<u8>, bytes: &[u8])
    ensures
        final(out)@ == old(out)@ + bytes@,
{
    let mut i: usize = 0;
    while i < bytes.len()
        invariant
            i <= bytes.len(),
            out@ == old(out)@ + bytes@.subrange(0, i as int),
        decreases bytes.len() - i,
    {
        out.push(bytes[i]);
        i = i + 1;
        assert(out@ =~= old(out)@ + bytes@.subrange(0, i as int));
    }
    assert(bytes@.subrange(0, i as int) =~= bytes@);
}

/// Appends zero bytes until the length is a multiple of four.
pub fn pad(out: &mut Vec<u8>)
    ensures
        final(out)@ == padded(old(out)@),
{
    while out.len() % 4 != 0
        invariant
            old(out)@.len() <= out@.len() <= align4(old(out)@.len() as int),
            out@ == old(out)@ + zeros(out@.len() - old(out)@.len()),
        decreases align4(old(out)@.len() as int) - out@.len(),
    {
        out.push(0u8);
        assert(out@ =~= old(out)@ + zeros(out@.len() - old(out)@.len()));
    }
}

/// Reads the 16-bit field that starts at `at`.
pub fn get_u16(buf: &[u8], at: usize) -> (x: u16)
    requires
        at + 2 <= buf@.len(),
    ensures
        x == le16_at(buf@, at as int),
{
    let lo: u16 = buf[at] as u16;
    let hi: u16 = buf[at + 1] as u16;
    lo + 256 * hi
}

/// Reads the 32-bit field that starts at `at`.
pub fn get_u32(buf: &[u8], at: usize) -> (x: u32)
    requires
        at + 4 <= buf@.len(),
    ensures
        x == le32_at(buf@, at as int),
{
    let b0: u32 = buf[at] as u32;
    let b1: u32 = buf[at + 1] as u32;
    let b2: u32 = buf[at + 2] as u32;
    let b3: u32 = buf[at + 3] as u32;
    b0 + 256 * b1 + 65536 * b2 + 16777216 * b3
}

/// Reinterprets a 32-bit field as the signed number it carries.
pub fn to_signed(x: u32) -> (r: i32)
    ensures
        r == as_signed(x),
{
    if x < 0x8000_0000 {
        x as i32
    } else {
        let below: u32 = u32::MAX - x;
        -1i32 - (below as i32)
    }
}

} // verus!
