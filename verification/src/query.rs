//! The UDP echo query and the rendezvous server's reply rule.
//!
//! A client asks a known rendezvous server what external address it sees:
//! it seals an `EchoRequest` carrying an ephemeral public key to the
//! server's key and fires it as one datagram, retransmitting on the
//! schedule in `timing` until a reply arrives or the query deadline
//! passes. Datagrams from any other source are ignored. The reply payload,
//! encrypted under the shared secret of the two keys, is the observed
//! source address of the request in its wire form. The sealing, the
//! sockets and the clock are the embedder's; the decisions and the
//! payloads are here.

use vstd::prelude::*;
use crate::addr::{
    SocketAddress, spec_encode_addr, spec_decode_addr, spec_addr_encoded_len, encode_socket_addr,
    decode_socket_addr, lemma_addr_round_trip,
};
use crate::errors::QueryPublicAddrError;
use crate::keys::PublicEncryptKey;

verus! {

/// A remote rendezvous server that can be queried for this peer's external
/// address.
#[derive(Clone, Copy, Debug)]
pub struct RemoteUdpRendezvousServer {
    addr: SocketAddress,
    pub_key: PublicEncryptKey,
}

impl RemoteUdpRendezvousServer {
    /// The server's address.
    pub closed spec fn spec_addr(&self) -> SocketAddress {
        self.addr
    }

    /// The server's long-term public key.
    pub closed spec fn spec_pub_key(&self) -> PublicEncryptKey {
        self.pub_key
    }

    /// Define a new remote server.
    pub fn new(addr: SocketAddress, pub_key: PublicEncryptKey) -> (r: RemoteUdpRendezvousServer)
        ensures
            r.spec_addr() == addr,
            r.spec_pub_key() == pub_key,
    {
        RemoteUdpRendezvousServer { addr, pub_key }
    }

    /// The server's address, for the embedder's socket.
    pub fn addr(&self) -> (r: SocketAddress)
        ensures
            r == self.spec_addr(),
    {
        self.addr
    }

    /// The server's public key, for the embedder's sealing step.
    pub fn pub_key(&self) -> (r: PublicEncryptKey)
        ensures
            r == self.spec_pub_key(),
    {
        self.pub_key
    }

    /// Replies are taken only from the server that was asked: a datagram
    /// from any other source is ignored.
    pub fn accepts_reply_from(&self, source: &SocketAddress) -> (r: bool)
        ensures
            r == (*source == self.spec_addr()),
    {
        *source == self.addr
    }
}

/// The one-shot query payload: the client's ephemeral public key, to be
/// sealed to the server's key before it leaves the host.
#[derive(Clone, Copy, Debug, PartialEq, Eq, Structural)]
pub struct EchoRequest {
    pub client_pk: PublicEncryptKey,
}

/// The plaintext of the echo request: the 32 key bytes.
pub open spec fn spec_encode_echo_request(req: EchoRequest) -> Seq<u8> {
    req.client_pk@
}

/// Serialise an echo request for sealing.
pub fn encode_echo_request(req: &EchoRequest) -> (r: Vec<u8>)
    ensures
        r@ == spec_encode_echo_request(*req),
{
    req.client_pk.to_bytes()
}

/// Parse an unsealed echo request (the server side of the query).
pub fn decode_echo_request(b: &Vec<u8>) -> (r: Option<EchoRequest>)
    ensures
        b@.len() == 32 ==> (r matches Some(req) && spec_encode_echo_request(req) == b@),
        b@.len() != 32 ==> r is None,
{
    match PublicEncryptKey::from_bytes(b) {
        Some(client_pk) => Some(EchoRequest { client_pk }),
        None => None,
    }
}

/// The reply plaintext decodes as exactly one wire-encoded address.
pub open spec fn spec_reply_addr(b: Seq<u8>) -> Option<SocketAddress> {
    match spec_decode_addr(b) {
        Some((a, n)) => if n == b.len() {
            Some(a)
        } else {
            None
        },
        None => None,
    }
}

/// Turn the decryption outcome of a reply datagram into the external
/// address, or the exact fault owed: a payload that did not decrypt, or
/// whose plaintext is not one address, is a decrypt fault.
pub fn interpret_reply_plaintext(plaintext: &Option<Vec<u8>>) -> (r: Result<
    SocketAddress,
    QueryPublicAddrError,
>)
    ensures
        match plaintext {
            Some(b) => match spec_reply_addr(b@) {
                Some(a) => r == Ok::<_, QueryPublicAddrError>(a),
                None => r == Err::<SocketAddress, _>(QueryPublicAddrError::Decrypt),
            },
            None => r == Err::<SocketAddress, _>(QueryPublicAddrError::Decrypt),
        },
{
    match plaintext {
        Some(b) => match decode_socket_addr(b, 0) {
            Some((a, n)) => {
                proof {
                    assert(b@.skip(0) =~= b@);
                }
                if n == b.len() {
                    Ok(a)
                } else {
                    Err(QueryPublicAddrError::Decrypt)
                }
            }
            None => {
                proof {
                    assert(b@.skip(0) =~= b@);
                }
                Err(QueryPublicAddrError::Decrypt)
            }
        },
        None => Err(QueryPublicAddrError::Decrypt),
    }
}

/// A datagram send that wrote fewer bytes than the request holds is a send
/// fault; a complete write is a success.
pub fn check_send_complete(sent: usize, request_len: usize) -> (r: Result<
    (),
    QueryPublicAddrError,
>)
    ensures
        sent == request_len ==> r == Ok::<_, QueryPublicAddrError>(()),
        sent != request_len ==> r == Err::<(), _>(QueryPublicAddrError::SendRequest),
{
    if sent == request_len {
        Ok(())
    } else {
        Err(QueryPublicAddrError::SendRequest)
    }
}

/// The rendezvous server's reply rule: the plaintext it encrypts for the
/// querier is the observed source address of the request, in wire form.
pub fn make_echo_reply_plaintext(observed_source: &SocketAddress) -> (r: Vec<u8>)
    ensures
        r@ == spec_encode_addr(*observed_source),
{
    let mut out: Vec<u8> = Vec::new();
    encode_socket_addr(observed_source, &mut out);
    assert(out@ =~= spec_encode_addr(*observed_source));
    out
}

/// A reply built from the observed source address decodes back to exactly
/// that address: up to the cipher, the querier learns the address the
/// server observed, whatever address that was.
pub proof fn lemma_echo_reply_round_trip(observed_source: SocketAddress)
    ensures
        spec_reply_addr(spec_encode_addr(observed_source)) == Some(observed_source),
{
    lemma_addr_round_trip(observed_source, Seq::empty());
    assert(spec_encode_addr(observed_source) + Seq::<u8>::empty() =~= spec_encode_addr(
        observed_source,
    ));
    assert(spec_encode_addr(observed_source).len() == spec_addr_encoded_len(observed_source));
}

} // verus!
