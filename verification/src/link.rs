//! The three changes that bring an interface into being, and the query that
//! finds a link by its name, as requests on a channel: create a link of the
//! WireGuard type, assign it an address, raise it.
use vstd::prelude::*;
use crate::address::IpAddress;
use crate::attr::{attr, encode_attr, encode_text_attr, lemma_attr_len, text};
use crate::channel::{request_flags, Channel};
use crate::message::frame;
use crate::wire::{
    le16, le32, put_bytes, put_u16, put_u32, IFA_ADDRESS, IFA_LOCAL, IFF_UP, IFLA_IFNAME,
    IFLA_INFO_KIND, IFLA_LINKINFO, NLM_F_ACK, NLM_F_CREATE, NLM_F_EXCL, NLM_F_REQUEST,
    RTM_GETLINK, RTM_NEWADDR, RTM_NEWLINK, RT_SCOPE_SITE,
};

verus! {

/// The longest interface name, in bytes, whose attribute can be encoded.
pub const MAX_NAME_LEN: usize = 65530;

/// Flags of a request that creates an object, refuses to replace one, and asks
/// for an acknowledgement: `NLM_F_REQUEST | NLM_F_ACK | NLM_F_EXCL | NLM_F_CREATE`.
pub const CREATE_FLAGS: u16 = 0x605;

/// Flags of a request that only asks for an acknowledgement:
/// `NLM_F_REQUEST | NLM_F_ACK`.
pub const ACK_FLAGS: u16 = 0x005;

/// The modifiers of a request that creates an object and refuses to replace
/// one: `NLM_F_EXCL | NLM_F_CREATE`.
pub const CREATE_MODIFIERS: u16 = 0x600;

/// The two flag words are made of the header's flag bits as their names say,
/// and are what a channel makes of the modifiers when an acknowledgement is
/// wanted.
pub proof fn lemma_flag_words()
    ensures
        CREATE_FLAGS == NLM_F_REQUEST | NLM_F_ACK | NLM_F_EXCL | NLM_F_CREATE,
        ACK_FLAGS == NLM_F_REQUEST | NLM_F_ACK,
        CREATE_MODIFIERS == NLM_F_EXCL | NLM_F_CREATE,
        request_flags(CREATE_MODIFIERS, true) == CREATE_FLAGS,
        request_flags(0, true) == ACK_FLAGS,
        CREATE_FLAGS & NLM_F_EXCL == NLM_F_EXCL,
        CREATE_FLAGS & NLM_F_CREATE == NLM_F_CREATE,
        CREATE_FLAGS & NLM_F_ACK == NLM_F_ACK,
        ACK_FLAGS & NLM_F_ACK == NLM_F_ACK,
{
    assert(0x605u16 == 0x001u16 | 0x004u16 | 0x200u16 | 0x400u16) by (bit_vector);
    assert(0x600u16 == 0x200u16 | 0x400u16) by (bit_vector);
    assert(0x600u16 | 0x001u16 | 0x004u16 == 0x605u16) by (bit_vector);
    assert(0u16 | 0x001u16 | 0x004u16 == 0x005u16) by (bit_vector);
    assert(0x005u16 == 0x001u16 | 0x004u16) by (bit_vector);
    assert(0x605u16 & 0x200u16 == 0x200u16) by (bit_vector);
    assert(0x605u16 & 0x400u16 == 0x400u16) by (bit_vector);
    assert(0x605u16 & 0x004u16 == 0x004u16) by (bit_vector);
    assert(0x005u16 & 0x004u16 == 0x004u16) by (bit_vector);
}

/// The link type that the kernel is asked for: the bytes of `wireguard`.
pub open spec fn link_kind() -> Seq<u8> {
    seq![119u8, 105u8, 114u8, 101u8, 103u8, 117u8, 97u8, 114u8, 100u8]
}

/// The fixed header of a link message: unspecified family and device type,
/// the link's index, its flags, and the mask of the flags to change.
pub open spec fn ifinfo(index: u32, flags: u32, change: u32) -> Seq<u8> {
    seq![0u8, 0u8] + le16(0) + le32(index) + le32(flags) + le32(change)
}

/// The fixed header of an address message.
pub open spec fn ifaddr(family: u8, prefix: u8, scope: u8, index: u32) -> Seq<u8> {
    seq![family, prefix, 0u8, scope] + le32(index)
}

/// The request that creates the link `name` with the WireGuard link type,
/// the type nested inside the link-info attribute.
pub open spec fn create_link(name: Seq<u8>, seq: u32) -> Seq<u8> {
    frame(
        RTM_NEWLINK,
        CREATE_FLAGS,
        seq,
        ifinfo(0, 0, 0) + attr(IFLA_IFNAME, text(name)) + attr(
            IFLA_LINKINFO,
            attr(IFLA_INFO_KIND, text(link_kind())),
        ),
    )
}

/// The query for the link `name`.
pub open spec fn find_link(name: Seq<u8>, seq: u32) -> Seq<u8> {
    frame(RTM_GETLINK, ACK_FLAGS, seq, ifinfo(0, 0, 0) + attr(IFLA_IFNAME, text(name)))
}

/// The request that assigns `ip` with `prefix`, in site scope, to the link
/// with the given index.
pub open spec fn add_address(index: u32, ip: IpAddress, prefix: u8, seq: u32) -> Seq<u8> {
    frame(
        RTM_NEWADDR,
        CREATE_FLAGS,
        seq,
        ifaddr(ip.family(), prefix, RT_SCOPE_SITE, index) + attr(IFA_ADDRESS, ip.octets()) + attr(
            IFA_LOCAL,
            ip.octets(),
        ),
    )
}

/// The request that sets the "up" flag of the link with the given index and
/// leaves its other flags alone.
pub open spec fn set_up(index: u32, seq: u32) -> Seq<u8> {
    frame(RTM_NEWLINK, ACK_FLAGS, seq, ifinfo(index, IFF_UP, IFF_UP))
}

/// Appends the fixed header of a link message.
fn put_ifinfo(out: &mut Vec<u8>, index: u32, flags: u32, change: u32)
    ensures
        final(out)@ == old(out)@ + ifinfo(index, flags, change),
{
    out.push(0u8);
    out.push(0u8);
    put_u16(out, 0);
    put_u32(out, index);
    put_u32(out, flags);
    put_u32(out, change);
    assert(final(out)@ =~= old(out)@ + ifinfo(index, flags, change));
}

/// Builds the request that creates the link `name`, as the next request on
/// `channel`.
pub fn create_link_request(name: &[u8], channel: &mut Channel) -> (out: Vec<u8>)
    requires
        name@.len() <= MAX_NAME_LEN,
    ensures
        *final(channel) == old(channel).sent(),
        out@ == create_link(name@, final(channel).seq),
{
    let mut body: Vec<u8> = Vec::new();
    put_ifinfo(&mut body, 0, 0, 0);
    let ifname = encode_text_attr(IFLA_IFNAME, name);
    put_bytes(&mut body, ifname.as_slice());
    let mut kind: Vec<u8> = Vec::new();
    kind.push(119u8);
    kind.push(105u8);
    kind.push(114u8);
    kind.push(101u8);
    kind.push(103u8);
    kind.push(117u8);
    kind.push(97u8);
    kind.push(114u8);
    kind.push(100u8);
    assert(kind@ =~= link_kind());
    let info_kind = encode_text_attr(IFLA_INFO_KIND, kind.as_slice());
    proof {
        lemma_attr_len(IFLA_INFO_KIND, text(link_kind()));
        lemma_attr_len(IFLA_IFNAME, text(name@));
    }
    let link_info = encode_attr(IFLA_LINKINFO, info_kind.as_slice());
    put_bytes(&mut body, link_info.as_slice());
    proof {
        lemma_attr_len(IFLA_LINKINFO, attr(IFLA_INFO_KIND, text(link_kind())));
    }
    proof {
        lemma_flag_words();
    }
    channel.send_request(RTM_NEWLINK, CREATE_MODIFIERS, body.as_slice(), true)
}

/// Builds the query for the link `name`, as the next request on `channel`.
pub fn find_link_request(name: &[u8], channel: &mut Channel) -> (out: Vec<u8>)
    requires
        name@.len() <= MAX_NAME_LEN,
    ensures
        *final(channel) == old(channel).sent(),
        out@ == find_link(name@, final(channel).seq),
{
    let mut body: Vec<u8> = Vec::new();
    put_ifinfo(&mut body, 0, 0, 0);
    let ifname = encode_text_attr(IFLA_IFNAME, name);
    put_bytes(&mut body, ifname.as_slice());
    proof {
        lemma_attr_len(IFLA_IFNAME, text(name@));
    }
    proof {
        lemma_flag_words();
    }
    channel.send_request(RTM_GETLINK, 0, body.as_slice(), true)
}

/// Builds the request that assigns an address to the link with the given
/// index, as the next request on `channel`.
pub fn add_address_request(index: u32, ip: &IpAddress, prefix: u8, channel: &mut Channel) -> (out:
    Vec<u8>)
    ensures
        *final(channel) == old(channel).sent(),
        out@ == add_address(index, *ip, prefix, final(channel).seq),
{
    let mut body: Vec<u8> = Vec::new();
    body.push(ip.family_code());
    body.push(prefix);
    body.push(0u8);
    body.push(RT_SCOPE_SITE);
    put_u32(&mut body, index);
    assert(body@ =~= ifaddr(ip.family(), prefix, RT_SCOPE_SITE, index));
    let octets = ip.to_octets();
    let address = encode_attr(IFA_ADDRESS, octets.as_slice());
    let local = encode_attr(IFA_LOCAL, octets.as_slice());
    put_bytes(&mut body, address.as_slice());
    put_bytes(&mut body, local.as_slice());
    proof {
        lemma_attr_len(IFA_ADDRESS, ip.octets());
        lemma_attr_len(IFA_LOCAL, ip.octets());
    }
    proof {
        lemma_flag_words();
    }
    channel.send_request(RTM_NEWADDR, CREATE_MODIFIERS, body.as_slice(), true)
}

/// Builds the request that raises the link with the given index, as the next
/// request on `channel`.
pub fn set_up_request(index: u32, channel: &mut Channel) -> (out: Vec<u8>)
    ensures
        *final(channel) == old(channel).sent(),
        out@ == set_up(index, final(channel).seq),
{
    let mut body: Vec<u8> = Vec::new();
    put_ifinfo(&mut body, index, IFF_UP, IFF_UP);
    proof {
        lemma_flag_words();
    }
    channel.send_request(RTM_NEWLINK, 0, body.as_slice(), true)
}

} // verus!
