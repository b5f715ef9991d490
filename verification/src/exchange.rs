//! The signalling exchange: one `Init` message out, one in.
//!
//! The attempt serialises its own message and sends it before it starts
//! waiting for the peer's, then waits at most
//! `timing::RENDEZVOUS_INFO_EXCHANGE_TIMEOUT_MS`. The channel I/O itself is
//! the embedder's; what it observed comes back as one `ChannelEvent`, and
//! `interpret_channel_event` turns that observation into the peer's message
//! or the exact fault the attempt dies with.

use vstd::prelude::*;
use crate::errors::TcpRendezvousConnectError;
use crate::keys::PublicEncryptKey;
use crate::addr::SocketAddress;
use crate::msg::{TcpRendezvousMsg, spec_encode_msg, spec_decode_msg, encode_msg, decode_msg};

verus! {

/// What the embedder observed while waiting for the peer's message.
#[derive(Clone, Debug)]
pub enum ChannelEvent {
    /// One frame arrived.
    Frame(Vec<u8>),
    /// The channel ended without a frame.
    Closed,
    /// Reading the channel failed.
    ReadError,
    /// The wait outlived the exchange timeout.
    TimedOut,
}

/// The outcome the exchange owes for each observation: the decoded message
/// for a well-formed frame, and otherwise the one fault that observation
/// names — a malformed frame is `DeserializeMsg`, an ended channel
/// `ChannelClosed`, a read fault `ChannelRead`, an elapsed timeout
/// `ChannelTimedOut`.
pub open spec fn spec_exchange_outcome(ev: ChannelEvent) -> Result<
    TcpRendezvousMsg,
    TcpRendezvousConnectError,
> {
    match ev {
        ChannelEvent::Frame(b) => match spec_decode_msg(b@) {
            Some(m) => Ok(m),
            None => Err(TcpRendezvousConnectError::DeserializeMsg),
        },
        ChannelEvent::Closed => Err(TcpRendezvousConnectError::ChannelClosed),
        ChannelEvent::ReadError => Err(TcpRendezvousConnectError::ChannelRead),
        ChannelEvent::TimedOut => Err(TcpRendezvousConnectError::ChannelTimedOut),
    }
}

/// The frame this side sends first: its own `Init` message, serialised.
pub fn make_init_frame(our_pk: &PublicEncryptKey, our_rendezvous_addr: &SocketAddress) -> (r: Vec<
    u8,
>)
    ensures
        r@ == spec_encode_msg(
            TcpRendezvousMsg::Init { enc_pk: *our_pk, rendezvous_addr: *our_rendezvous_addr },
        ),
{
    encode_msg(
        &(TcpRendezvousMsg::Init { enc_pk: *our_pk, rendezvous_addr: *our_rendezvous_addr }),
    )
}

/// Turn what the embedder observed on the channel into the peer's message,
/// or the exact fault owed for that observation.
pub fn interpret_channel_event(ev: &ChannelEvent) -> (r: Result<
    TcpRendezvousMsg,
    TcpRendezvousConnectError,
>)
    ensures
        r == spec_exchange_outcome(*ev),
{
    match ev {
        ChannelEvent::Frame(b) => match decode_msg(b) {
            Some(m) => Ok(m),
            None => Err(TcpRendezvousConnectError::DeserializeMsg),
        },
        ChannelEvent::Closed => Err(TcpRendezvousConnectError::ChannelClosed),
        ChannelEvent::ReadError => Err(TcpRendezvousConnectError::ChannelRead),
        ChannelEvent::TimedOut => Err(TcpRendezvousConnectError::ChannelTimedOut),
    }
}

} // verus!
