//! Echo-query, retransmit-schedule and resolver tests.

use p2p::addr::SocketAddress;
use p2p::errors::QueryPublicAddrError;
use p2p::keys::PublicEncryptKey;
use p2p::query::{
    check_send_complete, decode_echo_request, encode_echo_request, interpret_reply_plaintext,
    make_echo_reply_plaintext, EchoRequest, RemoteUdpRendezvousServer,
};
use p2p::resolver::{rendezvous_addr, NatType};
use p2p::timing::{RetransmitTimer, UDP_QUERY_TIMEOUT_MS, UDP_RETRANSMIT_PERIOD_MS};

fn v4(ip: u32, port: u16) -> SocketAddress {
    SocketAddress::V4 { ip, port }
}

#[test]
fn echo_reply_carries_observed_source_address() {
    // What a loopback server observes as the request's source is exactly
    // what the querier decodes from the reply plaintext.
    let observed = v4(0x7f00_0001, 45000);
    let reply = make_echo_reply_plaintext(&observed);
    assert_eq!(interpret_reply_plaintext(&Some(reply)), Ok(observed));
}

#[test]
fn reply_payload_that_does_not_decrypt_is_a_decrypt_fault() {
    assert_eq!(interpret_reply_plaintext(&None), Err(QueryPublicAddrError::Decrypt));
    assert_eq!(
        interpret_reply_plaintext(&Some(vec![1, 2, 3])),
        Err(QueryPublicAddrError::Decrypt)
    );
    // A well-formed address followed by trailing bytes is not one address.
    let mut reply = make_echo_reply_plaintext(&v4(1, 2));
    reply.push(0);
    assert_eq!(interpret_reply_plaintext(&Some(reply)), Err(QueryPublicAddrError::Decrypt));
}

#[test]
fn replies_from_other_sources_are_ignored() {
    let server = RemoteUdpRendezvousServer::new(v4(5, 1234), PublicEncryptKey { hi: 1, lo: 2 });
    assert!(server.accepts_reply_from(&v4(5, 1234)));
    assert!(!server.accepts_reply_from(&v4(5, 1235)));
    assert!(!server.accepts_reply_from(&v4(6, 1234)));
}

#[test]
fn echo_request_round_trip() {
    let req = EchoRequest { client_pk: PublicEncryptKey { hi: 77, lo: 88 } };
    let bytes = encode_echo_request(&req);
    assert_eq!(bytes.len(), 32);
    assert_eq!(decode_echo_request(&bytes), Some(req));
    assert_eq!(decode_echo_request(&vec![0; 16]), None);
}

#[test]
fn incomplete_datagram_send_is_a_send_fault() {
    assert_eq!(check_send_complete(5, 5), Ok(()));
    assert_eq!(check_send_complete(3, 5), Err(QueryPublicAddrError::SendRequest));
}

#[test]
fn retransmit_after_half_second_until_deadline() {
    // The first datagram is dropped: a second send falls due 500 ms later,
    // well inside the 3 s query deadline.
    let mut timer = RetransmitTimer::start();
    assert!(timer.should_send(0));
    timer.record_send(0);
    assert!(!timer.should_send(250));
    assert!(timer.should_send(UDP_RETRANSMIT_PERIOD_MS));
    timer.record_send(UDP_RETRANSMIT_PERIOD_MS);
    assert!(timer.should_send(1000));
    assert!(!timer.expired(UDP_QUERY_TIMEOUT_MS - 1));
    assert!(timer.expired(UDP_QUERY_TIMEOUT_MS));
    assert!(!timer.should_send(UDP_QUERY_TIMEOUT_MS));
}

#[test]
fn resolver_with_zero_servers_fails_immediately() {
    let r = rendezvous_addr(&Vec::new());
    let e = r.err().unwrap();
    assert!(e.errors.is_empty());
}

#[test]
fn resolver_needs_two_successes() {
    let r = rendezvous_addr(&vec![
        Ok(v4(1, 2)),
        Err(QueryPublicAddrError::ResponseTimeout),
        Err(QueryPublicAddrError::Decrypt),
    ]);
    let e = r.err().unwrap();
    assert_eq!(e.errors.len(), 2);
    assert!(matches!(e.errors[0], QueryPublicAddrError::ResponseTimeout));
    assert!(matches!(e.errors[1], QueryPublicAddrError::Decrypt));
}

#[test]
fn resolver_unanimous_replies_are_endpoint_independent() {
    let a = v4(0x0808_0808, 40000);
    let r = rendezvous_addr(&vec![Ok(a), Err(QueryPublicAddrError::ReadResponse), Ok(a)]);
    assert_eq!(r.ok().unwrap(), (a, NatType::EndpointIndependent));
}

#[test]
fn resolver_disagreement_takes_most_recent_address() {
    let a = v4(0x0808_0808, 40000);
    let b = v4(0x0808_0808, 40001);
    let r = rendezvous_addr(&vec![Ok(a), Ok(b)]);
    assert_eq!(r.ok().unwrap(), (b, NatType::AddressDependent));
}
