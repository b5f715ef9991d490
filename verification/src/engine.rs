//! The rendezvous connect attempt, phase by phase.
//!
//! One attempt binds a reusable listener, discovers its rendezvous address,
//! exchanges `Init` messages with the peer over the signalling channel, then
//! races an outbound connect from the bound port against the listener's
//! accepts and finalises exactly one stream via the choose protocol. The
//! sockets, timers and channel belong to the embedder; `TcpRendezvousConnect`
//! holds the phase and decides, for what the embedder observed, the one next
//! action and the one terminal fault where the attempt dies.

use vstd::prelude::*;
use crate::addr::SocketAddress;
use crate::chooser::{Role, spec_role_of, role_of};
use crate::errors::{RendezvousAddrError, TcpRendezvousConnectError};
use crate::exchange::{ChannelEvent, spec_exchange_outcome, interpret_channel_event, make_init_frame};
use crate::keys::PublicEncryptKey;
use crate::msg::{TcpRendezvousMsg, spec_encode_msg};
use crate::resolver::NatType;

verus! {

/// Where in the attempt the engine stands.
#[derive(Clone, Copy, Debug)]
#[allow(inconsistent_fields)]
pub enum EnginePhase {
    /// Waiting for the reusable listener to bind.
    Binding,
    /// Waiting for the rendezvous-address resolver.
    Resolving { bind_addr: SocketAddress },
    /// Own `Init` sent; waiting for the peer's over the channel.
    Exchanging { bind_addr: SocketAddress, our_addr: SocketAddress },
    /// Racing candidates under the choose protocol.
    Racing { our_addr: SocketAddress },
    /// The attempt ended, in success or fault.
    Done,
}

/// What the engine asks of the embedder after each observation.
#[derive(Clone, Debug)]
pub enum EngineAction {
    /// Query the rendezvous servers in parallel from this bound address.
    ResolveRendezvousAddr { bind_addr: SocketAddress },
    /// Send this frame on the signalling channel, then wait for the peer's
    /// frame, at most `timing::RENDEZVOUS_INFO_EXCHANGE_TIMEOUT_MS`.
    SendInit { frame: Vec<u8> },
    /// Launch the race: connect from the bound port to the peer's
    /// advertised address while accepting on the listener, for at most
    /// `timing::RENDEZVOUS_TIMEOUT_MS`, and run the choose protocol in the
    /// given role over the candidates.
    Race {
        connect_from: SocketAddress,
        connect_to: SocketAddress,
        role: Role,
        our_rendezvous_addr: SocketAddress,
    },
    /// The attempt died with this fault.
    Fail { error: TcpRendezvousConnectError },
}

/// One TCP rendezvous connect attempt: this peer's ephemeral key and the
/// phase the attempt stands in.
pub struct TcpRendezvousConnect {
    our_pk: PublicEncryptKey,
    phase: EnginePhase,
}

impl TcpRendezvousConnect {
    /// This peer's public encryption key for the attempt.
    pub closed spec fn spec_pk(&self) -> PublicEncryptKey {
        self.our_pk
    }

    /// The phase the attempt stands in.
    pub closed spec fn spec_phase(&self) -> EnginePhase {
        self.phase
    }

    /// Begin an attempt with this peer's ephemeral public key: the first
    /// step is binding the reusable listener.
    pub fn new(our_pk: PublicEncryptKey) -> (r: TcpRendezvousConnect)
        ensures
            r.spec_pk() == our_pk,
            r.spec_phase() is Binding,
    {
        TcpRendezvousConnect { our_pk, phase: EnginePhase::Binding }
    }

    /// The listener bound (its local address), or binding failed: go find
    /// the rendezvous address, or die with a bind fault.
    pub fn on_bind_result(&mut self, bound: &Option<SocketAddress>) -> (r: EngineAction)
        requires
            old(self).spec_phase() is Binding,
        ensures
            final(self).spec_pk() == old(self).spec_pk(),
            match *bound {
                Some(a) => {
                    &&& final(self).spec_phase() == (EnginePhase::Resolving { bind_addr: a })
                    &&& r == (EngineAction::ResolveRendezvousAddr { bind_addr: a })
                },
                None => {
                    &&& final(self).spec_phase() is Done
                    &&& r == (EngineAction::Fail { error: TcpRendezvousConnectError::Bind })
                },
            },
    {
        match bound {
            Some(a) => {
                self.phase = EnginePhase::Resolving { bind_addr: *a };
                EngineAction::ResolveRendezvousAddr { bind_addr: *a }
            }
            None => {
                self.phase = EnginePhase::Done;
                EngineAction::Fail { error: TcpRendezvousConnectError::Bind }
            }
        }
    }

    /// The resolver reported. With an address to advertise, build this
    /// side's `Init` frame; the embedder must send it before it starts
    /// waiting for the peer's. A resolver fault kills the attempt.
    pub fn on_rendezvous_addr(
        &mut self,
        outcome: Result<(SocketAddress, NatType), RendezvousAddrError>,
    ) -> (r: EngineAction)
        requires
            old(self).spec_phase() matches EnginePhase::Resolving { .. },
        ensures
            final(self).spec_pk() == old(self).spec_pk(),
            match outcome {
                Ok((a, _)) => {
                    &&& final(self).spec_phase() == (EnginePhase::Exchanging {
                        bind_addr: old(self).spec_phase()->Resolving_bind_addr,
                        our_addr: a,
                    })
                    &&& r matches EngineAction::SendInit { frame } && frame@ == spec_encode_msg(
                        TcpRendezvousMsg::Init {
                            enc_pk: old(self).spec_pk(),
                            rendezvous_addr: a,
                        },
                    )
                },
                Err(e) => {
                    &&& final(self).spec_phase() is Done
                    &&& r == (EngineAction::Fail {
                        error: TcpRendezvousConnectError::RendezvousAddrError(e),
                    })
                },
            },
    {
        let bind_addr = match self.phase {
            EnginePhase::Resolving { bind_addr } => bind_addr,
            _ => vstd::pervasive::unreached(),
        };
        match outcome {
            Ok((a, _nat)) => {
                let frame = make_init_frame(&self.our_pk, &a);
                self.phase = EnginePhase::Exchanging { bind_addr, our_addr: a };
                EngineAction::SendInit { frame }
            }
            Err(e) => {
                self.phase = EnginePhase::Done;
                EngineAction::Fail { error: TcpRendezvousConnectError::RendezvousAddrError(e) }
            }
        }
    }

    /// The wait for the peer's message ended. A well-formed `Init` starts
    /// the race: connect from the bound port to the peer's advertised
    /// address, accept in parallel, and play the role the key order gives
    /// this side. Anything else kills the attempt with the exact fault the
    /// observation names.
    pub fn on_channel_event(&mut self, ev: &ChannelEvent) -> (r: EngineAction)
        requires
            old(self).spec_phase() matches EnginePhase::Exchanging { .. },
        ensures
            final(self).spec_pk() == old(self).spec_pk(),
            match spec_exchange_outcome(*ev) {
                Ok(TcpRendezvousMsg::Init { enc_pk: their_pk, rendezvous_addr: their_addr }) => {
                    &&& final(self).spec_phase() == (EnginePhase::Racing {
                        our_addr: old(self).spec_phase()->Exchanging_our_addr,
                    })
                    &&& r == (EngineAction::Race {
                        connect_from: old(self).spec_phase()->Exchanging_bind_addr,
                        connect_to: their_addr,
                        role: spec_role_of(old(self).spec_pk(), their_pk),
                        our_rendezvous_addr: old(self).spec_phase()->Exchanging_our_addr,
                    })
                },
                Err(e) => {
                    &&& final(self).spec_phase() is Done
                    &&& r == (EngineAction::Fail { error: e })
                },
            },
    {
        let (bind_addr, our_addr) = match self.phase {
            EnginePhase::Exchanging { bind_addr, our_addr } => (bind_addr, our_addr),
            _ => vstd::pervasive::unreached(),
        };
        match interpret_channel_event(ev) {
            Ok(TcpRendezvousMsg::Init { enc_pk: their_pk, rendezvous_addr: their_addr }) => {
                let role = role_of(&self.our_pk, &their_pk);
                self.phase = EnginePhase::Racing { our_addr };
                EngineAction::Race {
                    connect_from: bind_addr,
                    connect_to: their_addr,
                    role,
                    our_rendezvous_addr: our_addr,
                }
            }
            Err(e) => {
                self.phase = EnginePhase::Done;
                EngineAction::Fail { error: e }
            }
        }
    }

    /// The choose protocol kept one candidate: the attempt's one terminal
    /// success is that stream together with this side's own observed
    /// rendezvous address.
    pub fn finish(&mut self, chosen_candidate: u64) -> (r: (u64, SocketAddress))
        requires
            old(self).spec_phase() matches EnginePhase::Racing { .. },
        ensures
            final(self).spec_pk() == old(self).spec_pk(),
            final(self).spec_phase() is Done,
            r == (chosen_candidate, old(self).spec_phase()->Racing_our_addr),
    {
        let our_addr = match self.phase {
            EnginePhase::Racing { our_addr } => our_addr,
            _ => vstd::pervasive::unreached(),
        };
        self.phase = EnginePhase::Done;
        (chosen_candidate, our_addr)
    }
}

} // verus!
