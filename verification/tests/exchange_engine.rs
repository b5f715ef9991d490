//! Signalling-exchange and whole-attempt engine tests.

use p2p::addr::SocketAddress;
use p2p::chooser::Role;
use p2p::engine::{EngineAction, TcpRendezvousConnect};
use p2p::errors::{QueryPublicAddrError, RendezvousAddrError, TcpRendezvousConnectError};
use p2p::exchange::{interpret_channel_event, make_init_frame, ChannelEvent};
use p2p::keys::PublicEncryptKey;
use p2p::msg::TcpRendezvousMsg;
use p2p::resolver::NatType;

fn key(hi: u128, lo: u128) -> PublicEncryptKey {
    PublicEncryptKey { hi, lo }
}

#[test]
fn signalling_timeout_fails_channel_timed_out() {
    let r = interpret_channel_event(&ChannelEvent::TimedOut);
    assert!(matches!(r, Err(TcpRendezvousConnectError::ChannelTimedOut)));
}

#[test]
fn signalling_malformed_bytes_fail_deserialize() {
    let r = interpret_channel_event(&ChannelEvent::Frame(vec![0xde, 0xad, 0xbe, 0xef]));
    assert!(matches!(r, Err(TcpRendezvousConnectError::DeserializeMsg)));
}

#[test]
fn signalling_closed_channel_fails_channel_closed() {
    let r = interpret_channel_event(&ChannelEvent::Closed);
    assert!(matches!(r, Err(TcpRendezvousConnectError::ChannelClosed)));
    let r = interpret_channel_event(&ChannelEvent::ReadError);
    assert!(matches!(r, Err(TcpRendezvousConnectError::ChannelRead)));
}

#[test]
fn signalling_delivers_well_formed_peer_message() {
    let pk = key(11, 22);
    let addr = SocketAddress::V4 { ip: 0x0a00_0001, port: 3000 };
    let frame = make_init_frame(&pk, &addr);
    let r = interpret_channel_event(&ChannelEvent::Frame(frame));
    assert_eq!(r.unwrap(), TcpRendezvousMsg::Init { enc_pk: pk, rendezvous_addr: addr });
}

#[test]
fn engine_happy_path_loopback() {
    // Two loopback peers; this side has the higher key and so will send.
    let our_pk = key(u128::MAX, u128::MAX);
    let their_pk = key(0, 0);
    let bind_addr = SocketAddress::V4 { ip: 0x7f00_0001, port: 52113 };
    let our_addr = SocketAddress::V4 { ip: 0x7f00_0001, port: 52113 };
    let their_addr = SocketAddress::V4 { ip: 0x7f00_0001, port: 52114 };

    let mut engine = TcpRendezvousConnect::new(our_pk);
    match engine.on_bind_result(&Some(bind_addr)) {
        EngineAction::ResolveRendezvousAddr { bind_addr: a } => assert_eq!(a, bind_addr),
        other => panic!("expected ResolveRendezvousAddr, got {:?}", other),
    }
    match engine.on_rendezvous_addr(Ok((our_addr, NatType::EndpointIndependent))) {
        EngineAction::SendInit { frame } => {
            assert_eq!(frame, make_init_frame(&our_pk, &our_addr));
        }
        other => panic!("expected SendInit, got {:?}", other),
    }
    let peer_frame = make_init_frame(&their_pk, &their_addr);
    match engine.on_channel_event(&ChannelEvent::Frame(peer_frame)) {
        EngineAction::Race { connect_from, connect_to, role, our_rendezvous_addr } => {
            assert_eq!(connect_from, bind_addr);
            assert_eq!(connect_to, their_addr);
            assert_eq!(role, Role::Sender);
            assert_eq!(our_rendezvous_addr, our_addr);
        }
        other => panic!("expected Race, got {:?}", other),
    }
    assert_eq!(engine.finish(7), (7, our_addr));
}

#[test]
fn engine_bind_failure_is_terminal() {
    let mut engine = TcpRendezvousConnect::new(key(1, 2));
    let r = engine.on_bind_result(&None);
    assert!(matches!(r, EngineAction::Fail { error: TcpRendezvousConnectError::Bind }));
}

#[test]
fn engine_resolver_failure_is_terminal() {
    let mut engine = TcpRendezvousConnect::new(key(1, 2));
    engine.on_bind_result(&Some(SocketAddress::V4 { ip: 0x7f00_0001, port: 4000 }));
    let err = RendezvousAddrError { errors: vec![QueryPublicAddrError::ResponseTimeout] };
    match engine.on_rendezvous_addr(Err(err)) {
        EngineAction::Fail { error: TcpRendezvousConnectError::RendezvousAddrError(e) } => {
            assert!(matches!(e.errors[0], QueryPublicAddrError::ResponseTimeout));
        }
        other => panic!("expected rendezvous-address failure, got {:?}", other),
    }
}

#[test]
fn engine_peer_hang_times_out() {
    // The peer never writes its message; the 120 s wait elapses.
    let mut engine = TcpRendezvousConnect::new(key(1, 2));
    engine.on_bind_result(&Some(SocketAddress::V4 { ip: 0x7f00_0001, port: 4000 }));
    engine.on_rendezvous_addr(Ok((
        SocketAddress::V4 { ip: 0x7f00_0001, port: 4000 },
        NatType::Unknown,
    )));
    let r = engine.on_channel_event(&ChannelEvent::TimedOut);
    assert!(matches!(r, EngineAction::Fail { error: TcpRendezvousConnectError::ChannelTimedOut }));
}

#[test]
fn error_descriptions_name_the_fault() {
    assert_eq!(
        TcpRendezvousConnectError::ChannelTimedOut.description(),
        "timed out waiting for message via rendezvous channel"
    );
    assert_eq!(
        TcpRendezvousConnectError::AllAttemptsFailed(Vec::new()).description(),
        "all attempts to connect to the remote host failed"
    );
    // The per-candidate encrypt fault names encryption, not decryption.
    assert_eq!(
        p2p::errors::SingleRendezvousAttemptError::Encrypt.description(),
        "error encrypting data"
    );
    assert_eq!(
        p2p::errors::SingleRendezvousAttemptError::Decrypt.description(),
        "error decrypting data"
    );
}
