//! The choose protocol: collapse the raced candidates to one connection.
//!
//! Simultaneous open plus parallel candidates inherently yields duplicate
//! connections. The peer whose public key is the greater under the
//! byte-order compare writes one encrypted choose token on each candidate
//! and keeps the first on which the write completes; the other peer reads
//! one frame per candidate and keeps the first that decrypts as the token.
//! Candidates are handled in completion order; the first success wins, and
//! per-candidate faults are collected, never propagated on their own.

use vstd::prelude::*;
use crate::errors::{SingleRendezvousAttemptError, TcpRendezvousConnectError};
use crate::keys::{PublicEncryptKey, spec_key_gt, key_gt, lemma_key_order_trichotomy};

verus! {

/// Which side of the choose protocol this peer plays.
#[derive(Clone, Copy, Debug, PartialEq, Eq, Structural)]
pub enum Role {
    /// The higher key: writes the choose token on each candidate.
    Sender,
    /// The lower (or equal) key: reads and validates the token.
    Receiver,
}

/// The role the key order gives this peer.
pub open spec fn spec_role_of(our_pk: PublicEncryptKey, their_pk: PublicEncryptKey) -> Role {
    if spec_key_gt(our_pk, their_pk) {
        Role::Sender
    } else {
        Role::Receiver
    }
}

/// Compute this peer's role from the two public keys.
pub fn role_of(our_pk: &PublicEncryptKey, their_pk: &PublicEncryptKey) -> (r: Role)
    ensures
        r == spec_role_of(*our_pk, *their_pk),
{
    if key_gt(our_pk, their_pk) {
        Role::Sender
    } else {
        Role::Receiver
    }
}

/// With distinct keys the two peers compute complementary roles: exactly
/// one side sends the choose token and the other validates it.
pub proof fn lemma_roles_complementary(a: PublicEncryptKey, b: PublicEncryptKey)
    requires
        a != b,
    ensures
        spec_role_of(a, b) is Sender <==> spec_role_of(b, a) is Receiver,
        spec_role_of(a, b) is Sender || spec_role_of(b, a) is Sender,
{
    lemma_key_order_trichotomy(a, b);
}

/// What the embedder observed on the candidates, in completion order.
/// Candidate sockets are named by an identifier of the embedder's choosing.
#[derive(Clone, Copy, Debug)]
pub enum CandidateEvent {
    /// A candidate socket opened: the outbound connect completed, or the
    /// listener accepted an inbound stream.
    Opened(u64),
    /// A candidate failed before it opened.
    AttemptFailed(SingleRendezvousAttemptError),
    /// Sender only: the framed token write completed on this candidate.
    TokenSent(u64),
    /// Sender only: the token write failed.
    TokenSendFailed,
    /// Receiver only: the candidate's first frame decrypted as the token.
    TokenValid(u64),
    /// Receiver only: the first frame failed to decrypt as the token.
    TokenInvalid,
    /// Receiver only: the candidate hung up without a frame.
    NoFrame,
    /// Receiver only: reading the first frame failed.
    ReadFailed,
}

/// Sender events belong to the sending role, receiver events to the
/// validating role; a candidate opening or failing belongs to both.
pub open spec fn spec_event_fits_role(ev: CandidateEvent, role: Role) -> bool {
    match ev {
        CandidateEvent::TokenSent(_) | CandidateEvent::TokenSendFailed => role is Sender,
        CandidateEvent::TokenValid(_) | CandidateEvent::TokenInvalid | CandidateEvent::NoFrame
            | CandidateEvent::ReadFailed => role is Receiver,
        _ => true,
    }
}

/// What the protocol asks of the embedder after each observation.
#[derive(Clone, Copy, Debug, PartialEq, Eq, Structural)]
pub enum ChooseAction {
    /// Write the framed encrypted choose token on this candidate.
    SendToken(u64),
    /// Read one frame from this candidate and try to decrypt it.
    AwaitToken(u64),
    /// Nothing to do for this candidate; keep consuming events.
    Continue,
    /// The race is over: keep this candidate, drop all others.
    Chosen(u64),
}

/// The state of one run of the choose protocol.
pub struct ChooseConnections {
    role: Role,
    errors: Vec<SingleRendezvousAttemptError>,
    chosen: Option<u64>,
}

impl ChooseConnections {
    /// This peer's role.
    pub closed spec fn spec_role(&self) -> Role {
        self.role
    }

    /// The per-candidate faults collected so far, in event order.
    pub closed spec fn spec_errors(&self) -> Seq<SingleRendezvousAttemptError> {
        self.errors@
    }

    /// The chosen candidate, once one event succeeded.
    pub closed spec fn spec_chosen(&self) -> Option<u64> {
        self.chosen
    }

    /// Begin the protocol for this pair of keys.
    pub fn new(our_pk: &PublicEncryptKey, their_pk: &PublicEncryptKey) -> (r: ChooseConnections)
        ensures
            r.spec_role() == spec_role_of(*our_pk, *their_pk),
            r.spec_errors() == Seq::<SingleRendezvousAttemptError>::empty(),
            r.spec_chosen() is None,
    {
        let r = ChooseConnections { role: role_of(our_pk, their_pk), errors: Vec::new(), chosen: None };
        assert(r.spec_errors() =~= Seq::<SingleRendezvousAttemptError>::empty());
        r
    }

    /// This peer's role, for the embedder.
    pub fn role(&self) -> (r: Role)
        ensures
            r == self.spec_role(),
    {
        self.role
    }

    /// The chosen candidate, if the race has been won.
    pub fn chosen(&self) -> (r: Option<u64>)
        ensures
            r == self.spec_chosen(),
    {
        self.chosen
    }

    /// Consume one observation, in completion order.
    ///
    /// A candidate that opens is told to carry the token (sender) or to
    /// yield one frame (receiver). The first completed token write, or the
    /// first frame that decrypts as the token, wins the race. A candidate
    /// whose first frame fails to decrypt is discarded and the attempt
    /// continues on the others, recording a decrypt fault; one that hangs
    /// up without a frame is discarded silently. Connect, accept, write and
    /// read faults are collected, never propagated on their own.
    pub fn step(&mut self, ev: &CandidateEvent) -> (r: ChooseAction)
        requires
            old(self).spec_chosen() is None,
            spec_event_fits_role(*ev, old(self).spec_role()),
        ensures
            final(self).spec_role() == old(self).spec_role(),
            match *ev {
                CandidateEvent::Opened(id) => {
                    &&& r == if old(self).spec_role() is Sender {
                        ChooseAction::SendToken(id)
                    } else {
                        ChooseAction::AwaitToken(id)
                    }
                    &&& final(self).spec_errors() == old(self).spec_errors()
                    &&& final(self).spec_chosen() is None
                },
                CandidateEvent::AttemptFailed(e) => {
                    &&& r == ChooseAction::Continue
                    &&& final(self).spec_errors() == old(self).spec_errors().push(e)
                    &&& final(self).spec_chosen() is None
                },
                CandidateEvent::TokenSent(id) => {
                    &&& r == ChooseAction::Chosen(id)
                    &&& final(self).spec_errors() == old(self).spec_errors()
                    &&& final(self).spec_chosen() == Some(id)
                },
                CandidateEvent::TokenSendFailed => {
                    &&& r == ChooseAction::Continue
                    &&& final(self).spec_errors() == old(self).spec_errors().push(
                        SingleRendezvousAttemptError::Write,
                    )
                    &&& final(self).spec_chosen() is None
                },
                CandidateEvent::TokenValid(id) => {
                    &&& r == ChooseAction::Chosen(id)
                    &&& final(self).spec_errors() == old(self).spec_errors()
                    &&& final(self).spec_chosen() == Some(id)
                },
                CandidateEvent::TokenInvalid => {
                    &&& r == ChooseAction::Continue
                    &&& final(self).spec_errors() == old(self).spec_errors().push(
                        SingleRendezvousAttemptError::Decrypt,
                    )
                    &&& final(self).spec_chosen() is None
                },
                CandidateEvent::NoFrame => {
                    &&& r == ChooseAction::Continue
                    &&& final(self).spec_errors() == old(self).spec_errors()
                    &&& final(self).spec_chosen() is None
                },
                CandidateEvent::ReadFailed => {
                    &&& r == ChooseAction::Continue
                    &&& final(self).spec_errors() == old(self).spec_errors().push(
                        SingleRendezvousAttemptError::Read,
                    )
                    &&& final(self).spec_chosen() is None
                },
            },
    {
        match ev {
            CandidateEvent::Opened(id) => {
                match self.role {
                    Role::Sender => ChooseAction::SendToken(*id),
                    Role::Receiver => ChooseAction::AwaitToken(*id),
                }
            }
            CandidateEvent::AttemptFailed(e) => {
                self.errors.push(*e);
                ChooseAction::Continue
            }
            CandidateEvent::TokenSent(id) => {
                self.chosen = Some(*id);
                ChooseAction::Chosen(*id)
            }
            CandidateEvent::TokenSendFailed => {
                self.errors.push(SingleRendezvousAttemptError::Write);
                ChooseAction::Continue
            }
            CandidateEvent::TokenValid(id) => {
                self.chosen = Some(*id);
                ChooseAction::Chosen(*id)
            }
            CandidateEvent::TokenInvalid => {
                self.errors.push(SingleRendezvousAttemptError::Decrypt);
                ChooseAction::Continue
            }
            CandidateEvent::NoFrame => ChooseAction::Continue,
            CandidateEvent::ReadFailed => {
                self.errors.push(SingleRendezvousAttemptError::Read);
                ChooseAction::Continue
            }
        }
    }

    /// The candidates are exhausted (or the race window closed) with no
    /// success: the attempt dies with the collected per-candidate faults.
    pub fn all_attempts_failed(self) -> (r: TcpRendezvousConnectError)
        requires
            self.spec_chosen() is None,
        ensures
            r matches TcpRendezvousConnectError::AllAttemptsFailed(es) && es@ == self.spec_errors(),
    {
        TcpRendezvousConnectError::AllAttemptsFailed(self.errors)
    }
}

/// Whether this observation ends the race in success for its role: the
/// token went out on a candidate, or came in and validated.
pub open spec fn spec_is_success(ev: CandidateEvent) -> bool {
    ev matches CandidateEvent::TokenSent(_) || ev matches CandidateEvent::TokenValid(_)
}

/// The candidate named by the first success in a completion-ordered
/// sequence of observations, if any succeeds.
pub open spec fn spec_first_winner(events: Seq<CandidateEvent>) -> Option<u64>
    decreases events.len(),
{
    if events.len() == 0 {
        None
    } else {
        match events.first() {
            CandidateEvent::TokenSent(id) => Some(id),
            CandidateEvent::TokenValid(id) => Some(id),
            _ => spec_first_winner(events.drop_first()),
        }
    }
}

/// The per-candidate faults a sequence of observations records, in order: a
/// failed attempt carries its own fault, a failed token write a write
/// fault, an invalid token a decrypt fault, a failed read a read fault; a
/// hang-up without a frame records nothing.
pub open spec fn spec_recorded_errors(
    events: Seq<CandidateEvent>,
) -> Seq<SingleRendezvousAttemptError>
    decreases events.len(),
{
    if events.len() == 0 {
        Seq::empty()
    } else {
        let rest = spec_recorded_errors(events.drop_last());
        match events.last() {
            CandidateEvent::AttemptFailed(e) => rest.push(e),
            CandidateEvent::TokenSendFailed => rest.push(SingleRendezvousAttemptError::Write),
            CandidateEvent::TokenInvalid => rest.push(SingleRendezvousAttemptError::Decrypt),
            CandidateEvent::ReadFailed => rest.push(SingleRendezvousAttemptError::Read),
            _ => rest,
        }
    }
}

/// Run the whole choose protocol over the candidates' observations, given
/// in completion order. However the candidates raced, exactly the first
/// success wins and every other candidate is dropped: duplicate
/// connections, inherent to simultaneous open, collapse to one. With no
/// success at all, the attempt fails with exactly the faults the
/// observations name, in order.
pub fn choose_connections(
    our_pk: &PublicEncryptKey,
    their_pk: &PublicEncryptKey,
    events: &Vec<CandidateEvent>,
) -> (r: Result<u64, TcpRendezvousConnectError>)
    requires
        forall|i: int| 0 <= i < events@.len() ==> spec_event_fits_role(
            #[trigger] events@[i],
            spec_role_of(*our_pk, *their_pk),
        ),
    ensures
        match spec_first_winner(events@) {
            Some(id) => r == Ok::<u64, TcpRendezvousConnectError>(id),
            None => r matches Err(TcpRendezvousConnectError::AllAttemptsFailed(es)) && es@
                == spec_recorded_errors(events@),
        },
{
    let mut machine = ChooseConnections::new(our_pk, their_pk);
    let mut i: usize = 0;
    proof {
        assert(events@.take(0) =~= Seq::<CandidateEvent>::empty());
        assert(events@.skip(0) =~= events@);
    }
    while i < events.len()
        invariant
            i <= events@.len(),
            machine.spec_role() == spec_role_of(*our_pk, *their_pk),
            machine.spec_chosen() is None,
            machine.spec_errors() == spec_recorded_errors(events@.take(i as int)),
            spec_first_winner(events@) == spec_first_winner(events@.skip(i as int)),
            forall|k: int| 0 <= k < events@.len() ==> spec_event_fits_role(
                #[trigger] events@[k],
                spec_role_of(*our_pk, *their_pk),
            ),
        decreases events@.len() - i,
    {
        proof {
            assert(events@.skip(i as int).first() == events@[i as int]);
            assert(events@.skip(i as int).drop_first() =~= events@.skip(i as int + 1));
            assert(events@.take(i as int + 1).drop_last() =~= events@.take(i as int));
            assert(events@.take(i as int + 1).last() == events@[i as int]);
        }
        let ev = &events[i];
        let action = machine.step(ev);
        if let ChooseAction::Chosen(id) = action {
            assert(spec_first_winner(events@.skip(i as int)) == Some(id));
            return Ok(id);
        }
        i = i + 1;
    }
    proof {
        assert(events@.take(events@.len() as int) =~= events@);
        assert(events@.skip(events@.len() as int) =~= Seq::<CandidateEvent>::empty());
    }
    Err(machine.all_attempts_failed())
}

} // verus!
