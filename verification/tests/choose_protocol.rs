//! Key-order tiebreak and choose-protocol tests.

use p2p::chooser::{
    choose_connections, CandidateEvent, ChooseAction, ChooseConnections, Role, role_of,
};
use p2p::errors::{ConnectReusableError, SingleRendezvousAttemptError, TcpRendezvousConnectError};
use p2p::keys::{key_gt, PublicEncryptKey};

fn key(hi: u128, lo: u128) -> PublicEncryptKey {
    PublicEncryptKey { hi, lo }
}

#[test]
fn key_order_exactly_one_side_greater() {
    let pairs = [
        (key(0, 1), key(0, 2)),
        (key(5, 0), key(4, u128::MAX)),
        (key(u128::MAX, u128::MAX), key(0, 0)),
        (key(7, 8), key(7, 9)),
    ];
    for (a, b) in pairs {
        assert!(key_gt(&a, &b) != key_gt(&b, &a));
    }
}

#[test]
fn key_order_is_the_byte_order() {
    // The compare over the halves agrees with a byte-by-byte compare of
    // the canonical serialisation: a later byte decides only on a tie.
    let mut low = vec![0u8; 32];
    let mut high = vec![0u8; 32];
    low[20] = 5;
    high[20] = 9;
    let k_low = PublicEncryptKey::from_bytes(&low).unwrap();
    let k_high = PublicEncryptKey::from_bytes(&high).unwrap();
    assert!(key_gt(&k_high, &k_low));
    assert!(!key_gt(&k_low, &k_high));
    low[3] = 0xFF;
    let k_early = PublicEncryptKey::from_bytes(&low).unwrap();
    assert!(key_gt(&k_early, &k_high));
}

#[test]
fn tiebreak_higher_key_sends() {
    let a = key(u128::MAX, u128::MAX);
    let b = key(0, 0);
    assert_eq!(role_of(&a, &b), Role::Sender);
    assert_eq!(role_of(&b, &a), Role::Receiver);

    // Peer A writes exactly one frame: the token on the first open candidate.
    let mut side_a = ChooseConnections::new(&a, &b);
    assert_eq!(side_a.step(&CandidateEvent::Opened(1)), ChooseAction::SendToken(1));
    assert_eq!(side_a.step(&CandidateEvent::TokenSent(1)), ChooseAction::Chosen(1));
    assert_eq!(side_a.chosen(), Some(1));

    // Peer B only reads and validates.
    let mut side_b = ChooseConnections::new(&b, &a);
    assert_eq!(side_b.step(&CandidateEvent::Opened(1)), ChooseAction::AwaitToken(1));
    assert_eq!(side_b.step(&CandidateEvent::TokenValid(1)), ChooseAction::Chosen(1));
    assert_eq!(side_b.chosen(), Some(1));
}

#[test]
fn wrong_key_token_discarded_attempt_continues() {
    let ours = key(0, 0);
    let theirs = key(0, 1);
    let mut chooser = ChooseConnections::new(&ours, &theirs);
    assert_eq!(chooser.role(), Role::Receiver);
    assert_eq!(chooser.step(&CandidateEvent::Opened(1)), ChooseAction::AwaitToken(1));
    // The first candidate's token came from a wrong key: discarded, go on.
    assert_eq!(chooser.step(&CandidateEvent::TokenInvalid), ChooseAction::Continue);
    assert_eq!(chooser.chosen(), None);
    assert_eq!(chooser.step(&CandidateEvent::Opened(2)), ChooseAction::AwaitToken(2));
    assert_eq!(chooser.step(&CandidateEvent::TokenValid(2)), ChooseAction::Chosen(2));
    assert_eq!(chooser.chosen(), Some(2));
}

#[test]
fn all_attempts_failed_lists_every_error() {
    let ours = key(9, 9);
    let theirs = key(1, 1);
    let mut chooser = ChooseConnections::new(&ours, &theirs);
    let refused = CandidateEvent::AttemptFailed(SingleRendezvousAttemptError::Connect(
        ConnectReusableError::Connect,
    ));
    assert_eq!(chooser.step(&refused), ChooseAction::Continue);
    assert_eq!(chooser.step(&refused), ChooseAction::Continue);
    assert_eq!(chooser.step(&CandidateEvent::Opened(1)), ChooseAction::SendToken(1));
    assert_eq!(chooser.step(&CandidateEvent::TokenSendFailed), ChooseAction::Continue);
    match chooser.all_attempts_failed() {
        TcpRendezvousConnectError::AllAttemptsFailed(errors) => {
            assert_eq!(errors.len(), 3);
            assert!(matches!(
                errors[0],
                SingleRendezvousAttemptError::Connect(ConnectReusableError::Connect)
            ));
            assert!(matches!(errors[2], SingleRendezvousAttemptError::Write));
        }
        other => panic!("expected AllAttemptsFailed, got {:?}", other),
    }
}

#[test]
fn listener_wins_when_it_completes_first() {
    // The outbound connect (candidate 1) is slow; the accepted inbound
    // stream (candidate 2) completes first and must be the one kept.
    let ours = key(3, 0);
    let theirs = key(2, 0);
    let mut chooser = ChooseConnections::new(&ours, &theirs);
    assert_eq!(chooser.step(&CandidateEvent::Opened(2)), ChooseAction::SendToken(2));
    assert_eq!(chooser.step(&CandidateEvent::TokenSent(2)), ChooseAction::Chosen(2));
    assert_eq!(chooser.chosen(), Some(2));
}

#[test]
fn unroutable_peer_fails_with_connect_error() {
    // The peer's advertised address is unroutable and nothing comes in
    // before the race window closes.
    let ours = key(1, 0);
    let theirs = key(2, 0);
    let mut chooser = ChooseConnections::new(&ours, &theirs);
    let timed_out = CandidateEvent::AttemptFailed(SingleRendezvousAttemptError::Connect(
        ConnectReusableError::Connect,
    ));
    assert_eq!(chooser.step(&timed_out), ChooseAction::Continue);
    match chooser.all_attempts_failed() {
        TcpRendezvousConnectError::AllAttemptsFailed(errors) => {
            assert!(!errors.is_empty());
            assert!(matches!(errors[0], SingleRendezvousAttemptError::Connect(_)));
        }
        other => panic!("expected AllAttemptsFailed, got {:?}", other),
    }
}

#[test]
fn read_accept_and_decrypt_faults_are_collected() {
    let ours = key(0, 0);
    let theirs = key(0, 1);
    let mut chooser = ChooseConnections::new(&ours, &theirs);
    assert_eq!(
        chooser.step(&CandidateEvent::AttemptFailed(SingleRendezvousAttemptError::Accept)),
        ChooseAction::Continue
    );
    assert_eq!(chooser.step(&CandidateEvent::Opened(1)), ChooseAction::AwaitToken(1));
    assert_eq!(chooser.step(&CandidateEvent::ReadFailed), ChooseAction::Continue);
    assert_eq!(chooser.step(&CandidateEvent::Opened(2)), ChooseAction::AwaitToken(2));
    assert_eq!(chooser.step(&CandidateEvent::TokenInvalid), ChooseAction::Continue);
    match chooser.all_attempts_failed() {
        TcpRendezvousConnectError::AllAttemptsFailed(errors) => {
            assert!(matches!(errors[0], SingleRendezvousAttemptError::Accept));
            assert!(matches!(errors[1], SingleRendezvousAttemptError::Read));
            assert!(matches!(errors[2], SingleRendezvousAttemptError::Decrypt));
        }
        other => panic!("expected AllAttemptsFailed, got {:?}", other),
    }
}

#[test]
fn whole_run_keeps_first_success_only() {
    // Receiver side; candidates finish in completion order: a refused
    // connect, a wrong-key token, then two valid tokens. Only the first
    // valid one is kept.
    let ours = key(0, 0);
    let theirs = key(9, 9);
    let events = vec![
        CandidateEvent::AttemptFailed(SingleRendezvousAttemptError::Connect(
            ConnectReusableError::Connect,
        )),
        CandidateEvent::Opened(1),
        CandidateEvent::TokenInvalid,
        CandidateEvent::Opened(2),
        CandidateEvent::TokenValid(2),
        CandidateEvent::Opened(3),
        CandidateEvent::TokenValid(3),
    ];
    assert!(matches!(choose_connections(&ours, &theirs, &events), Ok(2)));
}

#[test]
fn whole_run_without_success_reports_every_fault() {
    let ours = key(9, 9);
    let theirs = key(0, 0);
    let events = vec![
        CandidateEvent::AttemptFailed(SingleRendezvousAttemptError::Accept),
        CandidateEvent::Opened(1),
        CandidateEvent::TokenSendFailed,
    ];
    match choose_connections(&ours, &theirs, &events) {
        Err(TcpRendezvousConnectError::AllAttemptsFailed(errors)) => {
            assert_eq!(errors.len(), 2);
            assert!(matches!(errors[0], SingleRendezvousAttemptError::Accept));
            assert!(matches!(errors[1], SingleRendezvousAttemptError::Write));
        }
        other => panic!("expected AllAttemptsFailed, got {:?}", other),
    }
}

#[test]
fn peer_hangup_without_frame_is_discarded_silently() {
    let ours = key(0, 0);
    let theirs = key(0, 1);
    let mut chooser = ChooseConnections::new(&ours, &theirs);
    assert_eq!(chooser.step(&CandidateEvent::Opened(1)), ChooseAction::AwaitToken(1));
    assert_eq!(chooser.step(&CandidateEvent::NoFrame), ChooseAction::Continue);
    match chooser.all_attempts_failed() {
        TcpRendezvousConnectError::AllAttemptsFailed(errors) => assert!(errors.is_empty()),
        other => panic!("expected AllAttemptsFailed, got {:?}", other),
    }
}
