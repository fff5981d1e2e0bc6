use wg_iface::attr::{encode_attr, encode_text_attr};
use wg_iface::link::{
    add_address_request, create_link_request, find_link_request, set_up_request, ACK_FLAGS,
    CREATE_FLAGS, CREATE_MODIFIERS,
};
use wg_iface::message::{encode_frame, read_error_code, read_header, read_link_index, Header};
use wg_iface::wire::{
    get_u16, get_u32, pad, put_bytes, put_u16, put_u32, to_signed, NLM_F_ACK, NLM_F_CREATE,
    NLM_F_EXCL, NLM_F_REQUEST,
};
use wg_iface::{Channel, ChannelState, IpAddress};

fn channel_after(sent: u32) -> Channel {
    Channel { seq: sent, state: ChannelState::Idle }
}

#[test]
fn integers_are_written_low_byte_first() {
    let mut out = Vec::new();
    put_u16(&mut out, 0x1234);
    put_u32(&mut out, 0xA1B2C3D4);
    assert_eq!(out, vec![0x34, 0x12, 0xD4, 0xC3, 0xB2, 0xA1]);
}

#[test]
fn integers_are_read_back() {
    let buf = [0xFFu8, 0x34, 0x12, 0xD4, 0xC3, 0xB2, 0xA1];
    assert_eq!(get_u16(&buf, 1), 0x1234);
    assert_eq!(get_u32(&buf, 3), 0xA1B2C3D4);
}

#[test]
fn signed_reading_is_twos_complement() {
    assert_eq!(to_signed(0), 0);
    assert_eq!(to_signed(17), 17);
    assert_eq!(to_signed(0xFFFF_FFEF), -17);
    assert_eq!(to_signed(0xFFFF_FFFF), -1);
    assert_eq!(to_signed(0x7FFF_FFFF), i32::MAX);
    assert_eq!(to_signed(0x8000_0000), i32::MIN);
}

#[test]
fn padding_reaches_the_next_multiple_of_four() {
    let mut one = vec![9u8];
    pad(&mut one);
    assert_eq!(one, vec![9, 0, 0, 0]);
    let mut four = vec![1u8, 2, 3, 4];
    pad(&mut four);
    assert_eq!(four, vec![1, 2, 3, 4]);
    let mut none: Vec<u8> = Vec::new();
    pad(&mut none);
    assert!(none.is_empty());
    let mut six = vec![1u8, 2, 3, 4, 5, 6];
    pad(&mut six);
    assert_eq!(six, vec![1, 2, 3, 4, 5, 6, 0, 0]);
}

#[test]
fn bytes_are_appended() {
    let mut out = vec![1u8];
    put_bytes(&mut out, &[2, 3]);
    assert_eq!(out, vec![1, 2, 3]);
}

#[test]
fn attribute_length_leaves_out_the_padding() {
    assert_eq!(encode_attr(7, &[0xAA]), vec![5, 0, 7, 0, 0xAA, 0, 0, 0]);
    assert_eq!(encode_attr(7, &[]), vec![4, 0, 7, 0]);
    assert_eq!(encode_attr(0x0102, &[1, 2, 3, 4]), vec![8, 0, 2, 1, 1, 2, 3, 4]);
}

#[test]
fn text_attribute_ends_in_a_zero_byte() {
    assert_eq!(encode_text_attr(3, b"wg0"), vec![8, 0, 3, 0, b'w', b'g', b'0', 0]);
    assert_eq!(
        encode_text_attr(3, b"wg10"),
        vec![9, 0, 3, 0, b'w', b'g', b'1', b'0', 0, 0, 0, 0]
    );
}

#[test]
fn nested_attribute_counts_the_whole_inner_encoding() {
    let inner = encode_text_attr(1, b"wireguard");
    assert_eq!(inner.len(), 16);
    assert_eq!(&inner[..4], &[14, 0, 1, 0]);
    let outer = encode_attr(18, &inner);
    assert_eq!(outer.len(), 20);
    assert_eq!(&outer[..4], &[20, 0, 18, 0]);
    assert_eq!(&outer[4..], &inner[..]);
}

#[test]
fn flag_words_are_made_of_the_flag_bits() {
    assert_eq!(CREATE_FLAGS, NLM_F_REQUEST | NLM_F_ACK | NLM_F_EXCL | NLM_F_CREATE);
    assert_eq!(ACK_FLAGS, NLM_F_REQUEST | NLM_F_ACK);
    assert_eq!(CREATE_MODIFIERS, NLM_F_EXCL | NLM_F_CREATE);
}

#[test]
fn frame_pads_the_body_and_counts_it() {
    let framed = encode_frame(16, 5, 0x01020304, &[0xAA, 0xBB, 0xCC]);
    assert_eq!(
        framed,
        vec![20, 0, 0, 0, 16, 0, 5, 0, 4, 3, 2, 1, 0, 0, 0, 0, 0xAA, 0xBB, 0xCC, 0]
    );
}

#[test]
fn create_link_request_for_wg0() {
    let mut expected: Vec<u8> = vec![60, 0, 0, 0, 16, 0, 0x05, 0x06, 1, 0, 0, 0, 0, 0, 0, 0];
    expected.extend_from_slice(&[0u8; 16]);
    expected.extend_from_slice(&[8, 0, 3, 0, b'w', b'g', b'0', 0]);
    expected.extend_from_slice(&[20, 0, 18, 0, 14, 0, 1, 0]);
    expected.extend_from_slice(b"wireguard");
    expected.extend_from_slice(&[0, 0, 0]);
    let mut channel = Channel::open();
    assert_eq!(create_link_request(b"wg0", &mut channel), expected);
    assert_eq!(channel, Channel { seq: 1, state: ChannelState::Awaiting });
}

#[test]
fn find_link_request_for_wg0() {
    let mut expected: Vec<u8> = vec![40, 0, 0, 0, 18, 0, 5, 0, 9, 0, 0, 0, 0, 0, 0, 0];
    expected.extend_from_slice(&[0u8; 16]);
    expected.extend_from_slice(&[8, 0, 3, 0, b'w', b'g', b'0', 0]);
    let mut channel = channel_after(8);
    assert_eq!(find_link_request(b"wg0", &mut channel), expected);
    assert_eq!(channel, Channel { seq: 9, state: ChannelState::Awaiting });
}

#[test]
fn add_address_request_for_ipv4() {
    let ip = IpAddress::V4([10, 13, 37, 2]);
    let mut expected: Vec<u8> = vec![40, 0, 0, 0, 20, 0, 0x05, 0x06, 2, 0, 0, 0, 0, 0, 0, 0];
    expected.extend_from_slice(&[2, 24, 0, 200, 7, 0, 0, 0]);
    expected.extend_from_slice(&[8, 0, 1, 0, 10, 13, 37, 2]);
    expected.extend_from_slice(&[8, 0, 2, 0, 10, 13, 37, 2]);
    let mut channel = channel_after(1);
    assert_eq!(add_address_request(7, &ip, 24, &mut channel), expected);
    assert_eq!(channel, Channel { seq: 2, state: ChannelState::Awaiting });
}

#[test]
fn add_address_request_for_ipv6() {
    let octets = [0xfd, 0, 0, 0, 0, 0, 0, 0, 0, 0, 0, 0, 0, 0, 0, 1];
    let ip = IpAddress::V6(octets);
    let mut expected: Vec<u8> = vec![64, 0, 0, 0, 20, 0, 0x05, 0x06, 3, 0, 0, 0, 0, 0, 0, 0];
    expected.extend_from_slice(&[10, 64, 0, 200, 0x01, 0x02, 0, 0]);
    expected.extend_from_slice(&[20, 0, 1, 0]);
    expected.extend_from_slice(&octets);
    expected.extend_from_slice(&[20, 0, 2, 0]);
    expected.extend_from_slice(&octets);
    assert_eq!(add_address_request(0x0201, &ip, 64, &mut channel_after(2)), expected);
}

#[test]
fn set_up_request_changes_only_the_up_flag() {
    let mut expected: Vec<u8> = vec![32, 0, 0, 0, 16, 0, 5, 0, 2, 0, 0, 0, 0, 0, 0, 0];
    expected.extend_from_slice(&[0, 0, 0, 0, 7, 0, 0, 0, 1, 0, 0, 0, 1, 0, 0, 0]);
    let mut channel = channel_after(1);
    assert_eq!(set_up_request(7, &mut channel), expected);
    assert_eq!(channel, Channel { seq: 2, state: ChannelState::Awaiting });
}

#[test]
fn header_of_a_framed_request_reads_back() {
    let framed = encode_frame(18, 5, 77, &[1, 2, 3, 4, 5]);
    assert_eq!(
        read_header(&framed, 0),
        Some(Header { len: 24, kind: 18, flags: 5, seq: 77, pid: 0 })
    );
}

#[test]
fn header_is_refused_where_no_whole_message_lies() {
    let framed = encode_frame(18, 5, 77, &[1, 2, 3, 4]);
    assert_eq!(read_header(&framed[..15], 0), None);
    assert_eq!(read_header(&framed[..19], 0), None);
    assert_eq!(read_header(&framed, 4), None);
    assert_eq!(read_header(&framed, framed.len()), None);
    let mut short = framed.clone();
    short[0] = 15;
    assert_eq!(read_header(&short, 0), None);
}

#[test]
fn error_code_and_link_index_are_read_from_the_payload() {
    let mut message: Vec<u8> = vec![24, 0, 0, 0, 2, 0, 0, 0, 1, 0, 0, 0, 0, 0, 0, 0];
    message.extend_from_slice(&[0xEF, 0xFF, 0xFF, 0xFF, 0x2A, 0, 0, 0]);
    assert_eq!(read_error_code(&message, 0), -17);
    assert_eq!(read_link_index(&message, 0), 42);
}

#[test]
fn address_octets_and_family() {
    let v4 = IpAddress::V4([10, 13, 37, 1]);
    assert_eq!(v4.to_octets(), vec![10, 13, 37, 1]);
    assert_eq!(v4.family_code(), 2);
    assert_eq!(v4.bit_len(), 32);
    let v6 = IpAddress::V6([1, 2, 3, 4, 5, 6, 7, 8, 9, 10, 11, 12, 13, 14, 15, 16]);
    assert_eq!(v6.to_octets(), vec![1, 2, 3, 4, 5, 6, 7, 8, 9, 10, 11, 12, 13, 14, 15, 16]);
    assert_eq!(v6.family_code(), 10);
    assert_eq!(v6.bit_len(), 128);
}
