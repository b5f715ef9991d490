//! Socket addresses as plain values, and their wire encoding.
//!
//! The wire form is IP-version tagged: `0x04` then the 4 address bytes and a
//! 2-byte big-endian port, or `0x06` then the 16 address bytes, the 2-byte
//! port, a 4-byte flowinfo and a 4-byte scope id. An IPv4 address is held as
//! the big-endian 32-bit integer of its 4 octets, an IPv6 address as the
//! big-endian 128-bit integer of its 16 octets.

use vstd::prelude::*;

verus! {

/// A transport-layer endpoint: an IP address and port, with the IPv6
/// flow and scope information where present.
#[derive(Clone, Copy, Debug, PartialEq, Eq, Structural)]
#[allow(inconsistent_fields)]
pub enum SocketAddress {
    V4 { ip: u32, port: u16 },
    V6 { ip: u128, port: u16, flowinfo: u32, scope_id: u32 },
}

pub const ADDR_TAG_V4: u8 = 4;
pub const ADDR_TAG_V6: u8 = 6;

/// Length in bytes of the wire form of an address.
pub open spec fn spec_addr_encoded_len(a: SocketAddress) -> int {
    match a {
        SocketAddress::V4 { .. } => 7,
        SocketAddress::V6 { .. } => 27,
    }
}

pub open spec fn u16_be(x: u16) -> Seq<u8> {
    seq![(x >> 8) as u8, x as u8]
}

pub open spec fn u32_be(x: u32) -> Seq<u8> {
    seq![(x >> 24) as u8, (x >> 16) as u8, (x >> 8) as u8, x as u8]
}

pub open spec fn u128_be(x: u128) -> Seq<u8> {
    seq![
        (x >> 120) as u8, (x >> 112) as u8, (x >> 104) as u8, (x >> 96) as u8,
        (x >> 88) as u8, (x >> 80) as u8, (x >> 72) as u8, (x >> 64) as u8,
        (x >> 56) as u8, (x >> 48) as u8, (x >> 40) as u8, (x >> 32) as u8,
        (x >> 24) as u8, (x >> 16) as u8, (x >> 8) as u8, x as u8,
    ]
}

pub open spec fn u16_of(b0: u8, b1: u8) -> u16 {
    ((b0 as u16) << 8) | (b1 as u16)
}

pub open spec fn u32_of(b0: u8, b1: u8, b2: u8, b3: u8) -> u32 {
    ((b0 as u32) << 24) | ((b1 as u32) << 16) | ((b2 as u32) << 8) | (b3 as u32)
}

pub open spec fn u128_of(
    b0: u8, b1: u8, b2: u8, b3: u8, b4: u8, b5: u8, b6: u8, b7: u8,
    b8: u8, b9: u8, b10: u8, b11: u8, b12: u8, b13: u8, b14: u8, b15: u8,
) -> u128 {
    ((b0 as u128) << 120) | ((b1 as u128) << 112) | ((b2 as u128) << 104)
        | ((b3 as u128) << 96) | ((b4 as u128) << 88) | ((b5 as u128) << 80)
        | ((b6 as u128) << 72) | ((b7 as u128) << 64) | ((b8 as u128) << 56)
        | ((b9 as u128) << 48) | ((b10 as u128) << 40) | ((b11 as u128) << 32)
        | ((b12 as u128) << 24) | ((b13 as u128) << 16) | ((b14 as u128) << 8)
        | (b15 as u128)
}

/// Reading the two big-endian bytes of a 16-bit value gives the value back.
pub proof fn lemma_u16_of_be(x: u16)
    ensures
        u16_of(u16_be(x)[0], u16_be(x)[1]) == x,
{
    assert(((((x >> 8) as u8) as u16) << 8 | ((x as u8) as u16)) == x) by (bit_vector);
}

/// Reading the four big-endian bytes of a 32-bit value gives the value back.
pub proof fn lemma_u32_of_be(x: u32)
    ensures
        u32_of(u32_be(x)[0], u32_be(x)[1], u32_be(x)[2], u32_be(x)[3]) == x,
{
    assert(((((x >> 24) as u8) as u32) << 24 | (((x >> 16) as u8) as u32) << 16
        | (((x >> 8) as u8) as u32) << 8 | ((x as u8) as u32)) == x) by (bit_vector);
}

/// Reading the sixteen big-endian bytes of a 128-bit value gives the value back.
pub proof fn lemma_u128_of_be(x: u128)
    ensures
        u128_of(
            u128_be(x)[0], u128_be(x)[1], u128_be(x)[2], u128_be(x)[3],
            u128_be(x)[4], u128_be(x)[5], u128_be(x)[6], u128_be(x)[7],
            u128_be(x)[8], u128_be(x)[9], u128_be(x)[10], u128_be(x)[11],
            u128_be(x)[12], u128_be(x)[13], u128_be(x)[14], u128_be(x)[15],
        ) == x,
{
    assert(((((x >> 120) as u8) as u128) << 120 | (((x >> 112) as u8) as u128) << 112
        | (((x >> 104) as u8) as u128) << 104 | (((x >> 96) as u8) as u128) << 96
        | (((x >> 88) as u8) as u128) << 88 | (((x >> 80) as u8) as u128) << 80
        | (((x >> 72) as u8) as u128) << 72 | (((x >> 64) as u8) as u128) << 64
        | (((x >> 56) as u8) as u128) << 56 | (((x >> 48) as u8) as u128) << 48
        | (((x >> 40) as u8) as u128) << 40 | (((x >> 32) as u8) as u128) << 32
        | (((x >> 24) as u8) as u128) << 24 | (((x >> 16) as u8) as u128) << 16
        | (((x >> 8) as u8) as u128) << 8 | ((x as u8) as u128)) == x) by (bit_vector);
}

/// Writing a 128-bit value read from sixteen bytes gives the bytes back.
pub proof fn lemma_u128_be_of(
    b0: u8, b1: u8, b2: u8, b3: u8, b4: u8, b5: u8, b6: u8, b7: u8,
    b8: u8, b9: u8, b10: u8, b11: u8, b12: u8, b13: u8, b14: u8, b15: u8,
)
    ensures
        u128_be(u128_of(b0, b1, b2, b3, b4, b5, b6, b7, b8, b9, b10, b11, b12, b13, b14, b15))
            =~= seq![b0, b1, b2, b3, b4, b5, b6, b7, b8, b9, b10, b11, b12, b13, b14, b15],
{
    let x: u128 = u128_of(b0, b1, b2, b3, b4, b5, b6, b7, b8, b9, b10, b11, b12, b13, b14, b15);
    assert(((x >> 120) as u8) == b0 && ((x >> 112) as u8) == b1 && ((x >> 104) as u8) == b2
        && ((x >> 96) as u8) == b3 && ((x >> 88) as u8) == b4 && ((x >> 80) as u8) == b5
        && ((x >> 72) as u8) == b6 && ((x >> 64) as u8) == b7 && ((x >> 56) as u8) == b8
        && ((x >> 48) as u8) == b9 && ((x >> 40) as u8) == b10 && ((x >> 32) as u8) == b11
        && ((x >> 24) as u8) == b12 && ((x >> 16) as u8) == b13 && ((x >> 8) as u8) == b14
        && (x as u8) == b15) by (bit_vector)
        requires x == ((b0 as u128) << 120) | ((b1 as u128) << 112) | ((b2 as u128) << 104)
            | ((b3 as u128) << 96) | ((b4 as u128) << 88) | ((b5 as u128) << 80)
            | ((b6 as u128) << 72) | ((b7 as u128) << 64) | ((b8 as u128) << 56)
            | ((b9 as u128) << 48) | ((b10 as u128) << 40) | ((b11 as u128) << 32)
            | ((b12 as u128) << 24) | ((b13 as u128) << 16) | ((b14 as u128) << 8)
            | (b15 as u128),
    ;
    assert(u128_be(x) =~= seq![b0, b1, b2, b3, b4, b5, b6, b7, b8, b9, b10, b11, b12, b13, b14, b15]);
}

/// Append the two big-endian bytes of a 16-bit value.
pub fn push_u16_be(out: &mut Vec<u8>, x: u16)
    ensures
        final(out)@ == old(out)@ + u16_be(x),
{
    out.push(#[verifier::truncate] ((x >> 8) as u8));
    out.push(#[verifier::truncate] (x as u8));
    assert(out@ =~= old(out)@ + u16_be(x));
}

/// Append the four big-endian bytes of a 32-bit value.
pub fn push_u32_be(out: &mut Vec<u8>, x: u32)
    ensures
        final(out)@ == old(out)@ + u32_be(x),
{
    out.push(#[verifier::truncate] ((x >> 24) as u8));
    out.push(#[verifier::truncate] ((x >> 16) as u8));
    out.push(#[verifier::truncate] ((x >> 8) as u8));
    out.push(#[verifier::truncate] (x as u8));
    assert(out@ =~= old(out)@ + u32_be(x));
}

/// Append the sixteen big-endian bytes of a 128-bit value.
pub fn push_u128_be(out: &mut Vec<u8>, x: u128)
    ensures
        final(out)@ == old(out)@ + u128_be(x),
{
    out.push(#[verifier::truncate] ((x >> 120) as u8));
    out.push(#[verifier::truncate] ((x >> 112) as u8));
    out.push(#[verifier::truncate] ((x >> 104) as u8));
    out.push(#[verifier::truncate] ((x >> 96) as u8));
    out.push(#[verifier::truncate] ((x >> 88) as u8));
    out.push(#[verifier::truncate] ((x >> 80) as u8));
    out.push(#[verifier::truncate] ((x >> 72) as u8));
    out.push(#[verifier::truncate] ((x >> 64) as u8));
    out.push(#[verifier::truncate] ((x >> 56) as u8));
    out.push(#[verifier::truncate] ((x >> 48) as u8));
    out.push(#[verifier::truncate] ((x >> 40) as u8));
    out.push(#[verifier::truncate] ((x >> 32) as u8));
    out.push(#[verifier::truncate] ((x >> 24) as u8));
    out.push(#[verifier::truncate] ((x >> 16) as u8));
    out.push(#[verifier::truncate] ((x >> 8) as u8));
    out.push(#[verifier::truncate] (x as u8));
    assert(out@ =~= old(out)@ + u128_be(x));
}

/// Read a big-endian 128-bit value from sixteen bytes at offset `start`.
pub fn read_u128_be(b: &Vec<u8>, start: usize) -> (r: u128)
    requires
        start + 16 <= b@.len(),
    ensures
        r == u128_of(
            b@[start as int], b@[start as int + 1], b@[start as int + 2], b@[start as int + 3],
            b@[start as int + 4], b@[start as int + 5], b@[start as int + 6], b@[start as int + 7],
            b@[start as int + 8], b@[start as int + 9], b@[start as int + 10],
            b@[start as int + 11], b@[start as int + 12], b@[start as int + 13],
            b@[start as int + 14], b@[start as int + 15],
        ),
{
    let l = b.len();
    assert(start + 16 <= l);
    ((b[start] as u128) << 120) | ((b[start + 1] as u128) << 112)
        | ((b[start + 2] as u128) << 104) | ((b[start + 3] as u128) << 96)
        | ((b[start + 4] as u128) << 88) | ((b[start + 5] as u128) << 80)
        | ((b[start + 6] as u128) << 72) | ((b[start + 7] as u128) << 64)
        | ((b[start + 8] as u128) << 56) | ((b[start + 9] as u128) << 48)
        | ((b[start + 10] as u128) << 40) | ((b[start + 11] as u128) << 32)
        | ((b[start + 12] as u128) << 24) | ((b[start + 13] as u128) << 16)
        | ((b[start + 14] as u128) << 8) | (b[start + 15] as u128)
}

/// The wire encoding of a socket address.
pub open spec fn spec_encode_addr(a: SocketAddress) -> Seq<u8> {
    match a {
        SocketAddress::V4 { ip, port } => seq![ADDR_TAG_V4] + u32_be(ip) + u16_be(port),
        SocketAddress::V6 { ip, port, flowinfo, scope_id } =>
            seq![ADDR_TAG_V6] + u128_be(ip) + u16_be(port) + u32_be(flowinfo) + u32_be(scope_id),
    }
}

/// Parse one wire-encoded socket address from the front of `b`; the second
/// component is the number of bytes consumed.
pub open spec fn spec_decode_addr(b: Seq<u8>) -> Option<(SocketAddress, int)> {
    if b.len() >= 7 && b[0] == ADDR_TAG_V4 {
        Some((
            SocketAddress::V4 { ip: u32_of(b[1], b[2], b[3], b[4]), port: u16_of(b[5], b[6]) },
            7,
        ))
    } else if b.len() >= 27 && b[0] == ADDR_TAG_V6 {
        Some((
            SocketAddress::V6 {
                ip: u128_of(
                    b[1], b[2], b[3], b[4], b[5], b[6], b[7], b[8],
                    b[9], b[10], b[11], b[12], b[13], b[14], b[15], b[16],
                ),
                port: u16_of(b[17], b[18]),
                flowinfo: u32_of(b[19], b[20], b[21], b[22]),
                scope_id: u32_of(b[23], b[24], b[25], b[26]),
            },
            27,
        ))
    } else {
        None
    }
}

/// Append the wire encoding of `a`.
pub fn encode_socket_addr(a: &SocketAddress, out: &mut Vec<u8>)
    ensures
        final(out)@ == old(out)@ + spec_encode_addr(*a),
{
    match a {
        SocketAddress::V4 { ip, port } => {
            out.push(ADDR_TAG_V4);
            push_u32_be(out, *ip);
            push_u16_be(out, *port);
            assert(out@ =~= old(out)@ + spec_encode_addr(*a));
        }
        SocketAddress::V6 { ip, port, flowinfo, scope_id } => {
            out.push(ADDR_TAG_V6);
            push_u128_be(out, *ip);
            push_u16_be(out, *port);
            push_u32_be(out, *flowinfo);
            push_u32_be(out, *scope_id);
            assert(out@ =~= old(out)@ + spec_encode_addr(*a));
        }
    }
}

/// Parse one wire-encoded socket address starting at offset `start` of `b`;
/// returns the address and the number of bytes consumed.
pub fn decode_socket_addr(b: &Vec<u8>, start: usize) -> (r: Option<(SocketAddress, usize)>)
    requires
        start <= b@.len(),
    ensures
        match r {
            Some((a, n)) => {
                &&& spec_decode_addr(b@.skip(start as int)) == Some((a, n as int))
                &&& start + n <= b@.len()
            },
            None => spec_decode_addr(b@.skip(start as int)) is None,
        },
{
    let avail = b.len() - start;
    let ghost s = b@.skip(start as int);
    proof {
        assert forall|i: int| 0 <= i < s.len() implies s[i] == b@[start + i] by {}
        assert(s.len() == avail);
    }
    if avail >= 7 && b[start] == ADDR_TAG_V4 {
        let ip: u32 = ((b[start + 1] as u32) << 24) | ((b[start + 2] as u32) << 16)
            | ((b[start + 3] as u32) << 8) | (b[start + 4] as u32);
        let port: u16 = ((b[start + 5] as u16) << 8) | (b[start + 6] as u16);
        let a = SocketAddress::V4 { ip, port };
        assert(ip == u32_of(s[1], s[2], s[3], s[4]));
        assert(port == u16_of(s[5], s[6]));
        Some((a, 7))
    } else if avail >= 27 && b[start] == ADDR_TAG_V6 {
        let ip: u128 = ((b[start + 1] as u128) << 120) | ((b[start + 2] as u128) << 112)
            | ((b[start + 3] as u128) << 104) | ((b[start + 4] as u128) << 96)
            | ((b[start + 5] as u128) << 88) | ((b[start + 6] as u128) << 80)
            | ((b[start + 7] as u128) << 72) | ((b[start + 8] as u128) << 64)
            | ((b[start + 9] as u128) << 56) | ((b[start + 10] as u128) << 48)
            | ((b[start + 11] as u128) << 40) | ((b[start + 12] as u128) << 32)
            | ((b[start + 13] as u128) << 24) | ((b[start + 14] as u128) << 16)
            | ((b[start + 15] as u128) << 8) | (b[start + 16] as u128);
        let port: u16 = ((b[start + 17] as u16) << 8) | (b[start + 18] as u16);
        let flowinfo: u32 = ((b[start + 19] as u32) << 24) | ((b[start + 20] as u32) << 16)
            | ((b[start + 21] as u32) << 8) | (b[start + 22] as u32);
        let scope_id: u32 = ((b[start + 23] as u32) << 24) | ((b[start + 24] as u32) << 16)
            | ((b[start + 25] as u32) << 8) | (b[start + 26] as u32);
        let a = SocketAddress::V6 { ip, port, flowinfo, scope_id };
        assert(ip == u128_of(
            s[1], s[2], s[3], s[4], s[5], s[6], s[7], s[8],
            s[9], s[10], s[11], s[12], s[13], s[14], s[15], s[16],
        ));
        assert(port == u16_of(s[17], s[18]));
        assert(flowinfo == u32_of(s[19], s[20], s[21], s[22]));
        assert(scope_id == u32_of(s[23], s[24], s[25], s[26]));
        Some((a, 27))
    } else {
        None
    }
}

/// Decoding starts over again where encoding left off: parsing a buffer that
/// begins with the encoding of `a` yields `a` back and consumes exactly the
/// encoding, whatever follows it.
pub proof fn lemma_addr_round_trip(a: SocketAddress, rest: Seq<u8>)
    ensures
        spec_decode_addr(spec_encode_addr(a) + rest) == Some((a, spec_addr_encoded_len(a))),
{
    let b = spec_encode_addr(a) + rest;
    match a {
        SocketAddress::V4 { ip, port } => {
            assert(b[0] == ADDR_TAG_V4);
            assert(b[1] == u32_be(ip)[0]);
            assert(b[2] == u32_be(ip)[1]);
            assert(b[3] == u32_be(ip)[2]);
            assert(b[4] == u32_be(ip)[3]);
            assert(b[5] == u16_be(port)[0]);
            assert(b[6] == u16_be(port)[1]);
            lemma_u32_of_be(ip);
            lemma_u16_of_be(port);
            assert(spec_decode_addr(b) == Some((a, 7int)));
        }
        SocketAddress::V6 { ip, port, flowinfo, scope_id } => {
            assert(b[0] == ADDR_TAG_V6);
            assert forall|i: int| 0 <= i < 16 implies b[1 + i] == u128_be(ip)[i] by {}
            assert(b[17] == u16_be(port)[0]);
            assert(b[18] == u16_be(port)[1]);
            assert(b[19] == u32_be(flowinfo)[0]);
            assert(b[20] == u32_be(flowinfo)[1]);
            assert(b[21] == u32_be(flowinfo)[2]);
            assert(b[22] == u32_be(flowinfo)[3]);
            assert(b[23] == u32_be(scope_id)[0]);
            assert(b[24] == u32_be(scope_id)[1]);
            assert(b[25] == u32_be(scope_id)[2]);
            assert(b[26] == u32_be(scope_id)[3]);
            lemma_u128_of_be(ip);
            lemma_u16_of_be(port);
            lemma_u32_of_be(flowinfo);
            lemma_u32_of_be(scope_id);
            assert(spec_decode_addr(b) == Some((a, 27int)));
        }
    }
}

} // verus!
