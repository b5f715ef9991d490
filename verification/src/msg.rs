//! The signalling message and the length-prefixed frame format.
//!
//! One `Init` message travels in each direction over the caller-supplied
//! signalling channel: the tag `Init` in ASCII, the sender's 32-byte public
//! encryption key, then the sender's rendezvous address in its wire form.
//! The encoding is deterministic, and the whole handshake fits in this one
//! message because the channel may forward only the first message.
//!
//! On candidate TCP streams, messages travel length-prefixed: a 4-byte
//! big-endian payload length, then the payload.

use vstd::prelude::*;
use crate::addr::{
    SocketAddress, spec_encode_addr, spec_decode_addr, spec_addr_encoded_len, u128_of, u32_of,
    u32_be, lemma_u128_of_be, lemma_u32_of_be, lemma_addr_round_trip, encode_socket_addr,
    decode_socket_addr, read_u128_be, push_u32_be,
};
use crate::keys::PublicEncryptKey;

verus! {

/// The single-frame payload exchanged over the signalling channel: the
/// sender's public encryption key and its advertised rendezvous address.
#[derive(Clone, Copy, Debug, PartialEq, Eq, Structural)]
pub enum TcpRendezvousMsg {
    Init { enc_pk: PublicEncryptKey, rendezvous_addr: SocketAddress },
}

pub const MSG_TAG_0: u8 = 0x49;
pub const MSG_TAG_1: u8 = 0x6e;
pub const MSG_TAG_2: u8 = 0x69;
pub const MSG_TAG_3: u8 = 0x74;

/// The wire encoding of the signalling message: "Init", the 32 key bytes,
/// the address.
pub open spec fn spec_encode_msg(m: TcpRendezvousMsg) -> Seq<u8> {
    match m {
        TcpRendezvousMsg::Init { enc_pk, rendezvous_addr } =>
            seq![MSG_TAG_0, MSG_TAG_1, MSG_TAG_2, MSG_TAG_3] + enc_pk@
                + spec_encode_addr(rendezvous_addr),
    }
}

/// Parse a buffer holding exactly one wire-encoded signalling message.
pub open spec fn spec_decode_msg(b: Seq<u8>) -> Option<TcpRendezvousMsg> {
    if b.len() >= 36 && b[0] == MSG_TAG_0 && b[1] == MSG_TAG_1 && b[2] == MSG_TAG_2
        && b[3] == MSG_TAG_3 {
        let enc_pk = PublicEncryptKey {
            hi: u128_of(
                b[4], b[5], b[6], b[7], b[8], b[9], b[10], b[11],
                b[12], b[13], b[14], b[15], b[16], b[17], b[18], b[19],
            ),
            lo: u128_of(
                b[20], b[21], b[22], b[23], b[24], b[25], b[26], b[27],
                b[28], b[29], b[30], b[31], b[32], b[33], b[34], b[35],
            ),
        };
        match spec_decode_addr(b.skip(36)) {
            Some((rendezvous_addr, n)) => if b.len() == 36 + n {
                Some(TcpRendezvousMsg::Init { enc_pk, rendezvous_addr })
            } else {
                None
            },
            None => None,
        }
    } else {
        None
    }
}

/// Serialise the signalling message.
pub fn encode_msg(m: &TcpRendezvousMsg) -> (r: Vec<u8>)
    ensures
        r@ == spec_encode_msg(*m),
{
    match m {
        TcpRendezvousMsg::Init { enc_pk, rendezvous_addr } => {
            let mut out: Vec<u8> = Vec::new();
            out.push(MSG_TAG_0);
            out.push(MSG_TAG_1);
            out.push(MSG_TAG_2);
            out.push(MSG_TAG_3);
            crate::addr::push_u128_be(&mut out, enc_pk.hi);
            crate::addr::push_u128_be(&mut out, enc_pk.lo);
            encode_socket_addr(rendezvous_addr, &mut out);
            assert(out@ =~= spec_encode_msg(*m));
            out
        }
    }
}

/// Deserialise a buffer holding exactly one signalling message.
pub fn decode_msg(b: &Vec<u8>) -> (r: Option<TcpRendezvousMsg>)
    ensures
        r == spec_decode_msg(b@),
{
    if b.len() < 36 {
        return None;
    }
    if !(b[0] == MSG_TAG_0 && b[1] == MSG_TAG_1 && b[2] == MSG_TAG_2 && b[3] == MSG_TAG_3) {
        return None;
    }
    let hi = read_u128_be(b, 4);
    let lo = read_u128_be(b, 20);
    let enc_pk = PublicEncryptKey { hi, lo };
    match decode_socket_addr(b, 36) {
        Some((rendezvous_addr, n)) => {
            if 36 + n == b.len() {
                Some(TcpRendezvousMsg::Init { enc_pk, rendezvous_addr })
            } else {
                None
            }
        }
        None => None,
    }
}

/// Deserialisation undoes serialisation: parsing the encoding of any
/// signalling message yields the message back.
pub proof fn lemma_msg_round_trip(m: TcpRendezvousMsg)
    ensures
        spec_decode_msg(spec_encode_msg(m)) == Some(m),
{
    let b = spec_encode_msg(m);
    match m {
        TcpRendezvousMsg::Init { enc_pk, rendezvous_addr } => {
            assert(enc_pk@.len() == 32);
            assert(b.len() == 36 + spec_addr_encoded_len(rendezvous_addr));
            assert(b[0] == MSG_TAG_0 && b[1] == MSG_TAG_1 && b[2] == MSG_TAG_2
                && b[3] == MSG_TAG_3);
            assert forall|i: int| 0 <= i < 16 implies b[4 + i] == crate::addr::u128_be(enc_pk.hi)[i]
                by {
                assert(b[4 + i] == enc_pk@[i]);
            }
            assert forall|i: int| 0 <= i < 16 implies b[20 + i] == crate::addr::u128_be(enc_pk.lo)[i]
                by {
                assert(b[20 + i] == enc_pk@[16 + i]);
            }
            lemma_u128_of_be(enc_pk.hi);
            lemma_u128_of_be(enc_pk.lo);
            assert(b.skip(36) =~= spec_encode_addr(rendezvous_addr));
            lemma_addr_round_trip(rendezvous_addr, Seq::empty());
            assert(spec_encode_addr(rendezvous_addr) + Seq::<u8>::empty()
                =~= spec_encode_addr(rendezvous_addr));
            assert(spec_decode_msg(b) == Some(m));
        }
    }
}

/// A length-prefixed frame: the 4-byte big-endian payload length, then the
/// payload.
pub open spec fn spec_frame(payload: Seq<u8>) -> Seq<u8>
    recommends
        payload.len() <= u32::MAX,
{
    u32_be(payload.len() as u32) + payload
}

/// Parse one frame from the front of `b`; the second component is the
/// number of bytes consumed.
pub open spec fn spec_parse_frame(b: Seq<u8>) -> Option<(Seq<u8>, int)> {
    if b.len() >= 4 {
        let n = u32_of(b[0], b[1], b[2], b[3]) as int;
        if b.len() >= 4 + n {
            Some((b.subrange(4, 4 + n), 4 + n))
        } else {
            None
        }
    } else {
        None
    }
}

/// Wrap a payload in a length-prefixed frame.
pub fn frame_payload(payload: &Vec<u8>) -> (r: Vec<u8>)
    requires
        payload@.len() <= u32::MAX,
    ensures
        r@ == spec_frame(payload@),
{
    let mut out: Vec<u8> = Vec::new();
    push_u32_be(&mut out, payload.len() as u32);
    let mut i: usize = 0;
    while i < payload.len()
        invariant
            i <= payload@.len(),
            payload@.len() <= u32::MAX,
            out@ == u32_be(payload@.len() as u32) + payload@.take(i as int),
        decreases payload@.len() - i,
    {
        out.push(payload[i]);
        assert(out@ =~= u32_be(payload@.len() as u32) + payload@.take(i as int + 1));
        i = i + 1;
    }
    assert(payload@.take(payload@.len() as int) =~= payload@);
    out
}

/// Parse one length-prefixed frame from the front of `b`; returns the
/// payload and the number of bytes consumed.
pub fn parse_frame(b: &Vec<u8>) -> (r: Option<(Vec<u8>, usize)>)
    ensures
        match r {
            Some((payload, n)) => spec_parse_frame(b@) == Some((payload@, n as int)),
            None => spec_parse_frame(b@) is None,
        },
{
    if b.len() < 4 {
        return None;
    }
    let n_u32: u32 = ((b[0] as u32) << 24) | ((b[1] as u32) << 16) | ((b[2] as u32) << 8)
        | (b[3] as u32);
    let n = n_u32 as usize;
    if b.len() - 4 < n {
        assert(b@.len() < 4 + u32_of(b@[0], b@[1], b@[2], b@[3]) as int);
        return None;
    }
    let l = b.len();
    let mut payload: Vec<u8> = Vec::new();
    let mut i: usize = 0;
    while i < n
        invariant
            i <= n,
            4 + n <= l,
            l == b@.len(),
            payload@ == b@.subrange(4, 4 + i as int),
        decreases n - i,
    {
        payload.push(b[4 + i]);
        assert(payload@ =~= b@.subrange(4, 4 + i as int + 1));
        i = i + 1;
    }
    Some((payload, 4 + n))
}

/// Parsing undoes framing: the payload comes back whole, whatever follows
/// the frame.
pub proof fn lemma_frame_round_trip(payload: Seq<u8>, rest: Seq<u8>)
    requires
        payload.len() <= u32::MAX,
    ensures
        spec_parse_frame(spec_frame(payload) + rest) == Some((payload, 4 + payload.len() as int)),
{
    let b = spec_frame(payload) + rest;
    let len32 = payload.len() as u32;
    assert(b[0] == u32_be(len32)[0]);
    assert(b[1] == u32_be(len32)[1]);
    assert(b[2] == u32_be(len32)[2]);
    assert(b[3] == u32_be(len32)[3]);
    lemma_u32_of_be(len32);
    assert(u32_of(b[0], b[1], b[2], b[3]) == len32);
    assert(b.subrange(4, 4 + payload.len() as int) =~= payload);
}

} // verus!
