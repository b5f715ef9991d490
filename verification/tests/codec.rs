//! Wire-format tests: addresses, signalling messages, frames, keys.

use p2p::addr::{decode_socket_addr, encode_socket_addr, SocketAddress};
use p2p::keys::PublicEncryptKey;
use p2p::msg::{decode_msg, encode_msg, frame_payload, parse_frame, TcpRendezvousMsg};

#[test]
fn addr_v4_encodes_tagged_big_endian() {
    let a = SocketAddress::V4 { ip: 0x7f00_0001, port: 45000 };
    let mut out: Vec<u8> = Vec::new();
    encode_socket_addr(&a, &mut out);
    assert_eq!(out, vec![4, 127, 0, 0, 1, 0xAF, 0xC8]);
}

#[test]
fn addr_v4_round_trip() {
    let a = SocketAddress::V4 { ip: 0x7f00_0001, port: 45000 };
    let mut out: Vec<u8> = Vec::new();
    encode_socket_addr(&a, &mut out);
    let (back, n) = decode_socket_addr(&out, 0).unwrap();
    assert_eq!(back, a);
    assert_eq!(n, 7);
}

#[test]
fn addr_v6_round_trip() {
    let a = SocketAddress::V6 { ip: 1, port: 443, flowinfo: 7, scope_id: 9 };
    let mut out: Vec<u8> = Vec::new();
    encode_socket_addr(&a, &mut out);
    assert_eq!(out.len(), 27);
    assert_eq!(out[0], 6);
    let (back, n) = decode_socket_addr(&out, 0).unwrap();
    assert_eq!(back, a);
    assert_eq!(n, 27);
}

#[test]
fn addr_decode_rejects_garbage() {
    assert!(decode_socket_addr(&Vec::new(), 0).is_none());
    assert!(decode_socket_addr(&vec![9, 1, 2, 3, 4, 5, 6], 0).is_none());
    // A v6 tag with only a v4-sized body is incomplete.
    assert!(decode_socket_addr(&vec![6, 1, 2, 3, 4, 5, 6], 0).is_none());
}

#[test]
fn msg_round_trip() {
    let m = TcpRendezvousMsg::Init {
        enc_pk: PublicEncryptKey { hi: 0x0123_4567_89ab_cdef, lo: u128::MAX - 17 },
        rendezvous_addr: SocketAddress::V4 { ip: 0xc0a8_0101, port: 4000 },
    };
    let bytes = encode_msg(&m);
    assert_eq!(&bytes[0..4], b"Init");
    assert_eq!(decode_msg(&bytes), Some(m));
}

#[test]
fn msg_v6_round_trip() {
    let m = TcpRendezvousMsg::Init {
        enc_pk: PublicEncryptKey { hi: 42, lo: 43 },
        rendezvous_addr: SocketAddress::V6 { ip: 0xfe80 << 112, port: 1, flowinfo: 0, scope_id: 2 },
    };
    let bytes = encode_msg(&m);
    assert_eq!(decode_msg(&bytes), Some(m));
}

#[test]
fn msg_decode_rejects_bad_tag_and_trailing_bytes() {
    let m = TcpRendezvousMsg::Init {
        enc_pk: PublicEncryptKey { hi: 1, lo: 2 },
        rendezvous_addr: SocketAddress::V4 { ip: 3, port: 4 },
    };
    let mut bytes = encode_msg(&m);
    let mut wrong_tag = bytes.clone();
    wrong_tag[0] = b'J';
    assert_eq!(decode_msg(&wrong_tag), None);
    bytes.push(0);
    assert_eq!(decode_msg(&bytes), None);
    assert_eq!(decode_msg(&vec![1, 2, 3]), None);
}

#[test]
fn frame_round_trip() {
    let payload = vec![1u8, 2, 3];
    let framed = frame_payload(&payload);
    assert_eq!(framed, vec![0, 0, 0, 3, 1, 2, 3]);
    let (back, n) = parse_frame(&framed).unwrap();
    assert_eq!(back, payload);
    assert_eq!(n, 7);
}

#[test]
fn frame_parse_rejects_truncated() {
    assert!(parse_frame(&vec![0, 0, 0]).is_none());
    assert!(parse_frame(&vec![0, 0, 0, 5, 1]).is_none());
}

#[test]
fn key_bytes_round_trip() {
    let bytes: Vec<u8> = (0u8..32).collect();
    let k = PublicEncryptKey::from_bytes(&bytes).unwrap();
    assert_eq!(k.to_bytes(), bytes);
    let short: Vec<u8> = (0u8..31).collect();
    assert!(PublicEncryptKey::from_bytes(&short).is_none());
}
