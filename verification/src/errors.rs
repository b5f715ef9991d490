//! The error taxonomy of the rendezvous engine.
//!
//! Kinds, not carriers: the surrounding I/O layer owns the underlying OS and
//! channel error values; the engine records which kind of fault occurred.
//! Per-candidate faults are collected, not propagated: only their
//! aggregation surfaces, as `AllAttemptsFailed`, when the whole attempt dies.

use vstd::prelude::*;

verus! {

/// Faults of a single reusably-bound outbound connect.
#[derive(Clone, Copy, Debug, PartialEq, Eq, Structural)]
pub enum ConnectReusableError {
    /// Failure to bind the socket to the local address.
    Bind,
    /// Connection failure.
    Connect,
}

/// Faults of one connection candidate during the rendezvous race.
#[derive(Clone, Copy, Debug, PartialEq, Eq, Structural)]
pub enum SingleRendezvousAttemptError {
    /// The reusable outbound connect failed.
    Connect(ConnectReusableError),
    /// Accepting an incoming stream failed.
    Accept,
    /// Writing the choose token to a candidate socket failed.
    Write,
    /// Reading the choose token on a candidate socket failed.
    Read,
    /// The candidate's first frame did not decrypt as the choose token.
    Decrypt,
    /// Encrypting data for a candidate failed.
    Encrypt,
}

/// Faults of one echo query against a rendezvous server.
#[derive(Clone, Copy, Debug, PartialEq, Eq, Structural)]
pub enum QueryPublicAddrError {
    /// Local socket creation failed.
    Bind,
    /// Sending the sealed echo request failed.
    SendRequest,
    /// Reading the server's reply failed.
    ReadResponse,
    /// Sealing the echo request failed.
    Encrypt,
    /// The reply did not decrypt, or did not decode as an address.
    Decrypt,
    /// No valid reply arrived within the query deadline.
    ResponseTimeout,
}

/// Aggregated echo-query failures: fewer than two servers reported an
/// external address; the per-server errors are carried along.
#[derive(Clone, Debug)]
pub struct RendezvousAddrError {
    pub errors: Vec<QueryPublicAddrError>,
}

/// Terminal faults of a whole rendezvous connect attempt.
#[derive(Clone, Debug)]
pub enum TcpRendezvousConnectError {
    /// Failure to bind a socket to some address.
    Bind,
    /// Failure to get socket bind addresses.
    IfAddrs,
    /// The info-exchange channel was closed before the peer's message came.
    ChannelClosed,
    /// The info exchange timed out.
    ChannelTimedOut,
    /// Failure to read from the info-exchange channel.
    ChannelRead,
    /// Failure to write to the info-exchange channel.
    ChannelWrite,
    /// Failure to serialise the message sent via the channel.
    SerializeMsg,
    /// Failure to deserialise the message received via the channel.
    DeserializeMsg,
    /// Failure to encrypt a message for the remote peer.
    Encrypt,
    /// Failure to decrypt a message from the remote peer.
    Decrypt,
    /// Every rendezvous connection attempt failed; the per-candidate
    /// errors are carried along.
    AllAttemptsFailed(Vec<SingleRendezvousAttemptError>),
    /// Failure to discover a rendezvous address.
    RendezvousAddrError(RendezvousAddrError),
}

/// One-line account of each terminal fault kind.
pub open spec fn spec_description(e: TcpRendezvousConnectError) -> Seq<char> {
    match e {
        TcpRendezvousConnectError::Bind => "error binding to local address"@,
        TcpRendezvousConnectError::IfAddrs => "error getting network interface addresses"@,
        TcpRendezvousConnectError::ChannelClosed => "rendezvous channel closed unexpectedly"@,
        TcpRendezvousConnectError::ChannelTimedOut =>
            "timed out waiting for message via rendezvous channel"@,
        TcpRendezvousConnectError::ChannelRead => "error reading from rendezvous channel"@,
        TcpRendezvousConnectError::ChannelWrite => "error writing to rendezvous channel"@,
        TcpRendezvousConnectError::SerializeMsg => "error serializing rendezvous message"@,
        TcpRendezvousConnectError::DeserializeMsg => "error deserializing rendezvous message"@,
        TcpRendezvousConnectError::Encrypt => "error encrypting message to send to remote peer"@,
        TcpRendezvousConnectError::Decrypt => "error decrypting message received from remote peer"@,
        TcpRendezvousConnectError::AllAttemptsFailed(_) =>
            "all attempts to connect to the remote host failed"@,
        TcpRendezvousConnectError::RendezvousAddrError(_) => "failed to find rendezvous address"@,
    }
}

impl TcpRendezvousConnectError {
    /// A short account of the fault.
    pub fn description(&self) -> (r: &'static str)
        ensures
            r@ == spec_description(*self),
    {
        match self {
            TcpRendezvousConnectError::Bind => "error binding to local address",
            TcpRendezvousConnectError::IfAddrs => "error getting network interface addresses",
            TcpRendezvousConnectError::ChannelClosed => "rendezvous channel closed unexpectedly",
            TcpRendezvousConnectError::ChannelTimedOut =>
                "timed out waiting for message via rendezvous channel",
            TcpRendezvousConnectError::ChannelRead => "error reading from rendezvous channel",
            TcpRendezvousConnectError::ChannelWrite => "error writing to rendezvous channel",
            TcpRendezvousConnectError::SerializeMsg => "error serializing rendezvous message",
            TcpRendezvousConnectError::DeserializeMsg => "error deserializing rendezvous message",
            TcpRendezvousConnectError::Encrypt =>
                "error encrypting message to send to remote peer",
            TcpRendezvousConnectError::Decrypt =>
                "error decrypting message received from remote peer",
            TcpRendezvousConnectError::AllAttemptsFailed(_) =>
                "all attempts to connect to the remote host failed",
            TcpRendezvousConnectError::RendezvousAddrError(_) =>
                "failed to find rendezvous address",
        }
    }
}

/// One-line account of each per-candidate fault kind.
pub open spec fn spec_attempt_description(e: SingleRendezvousAttemptError) -> Seq<char> {
    match e {
        SingleRendezvousAttemptError::Connect(_) => "error performing reusable connect"@,
        SingleRendezvousAttemptError::Accept => "error accepting incoming stream"@,
        SingleRendezvousAttemptError::Write =>
            "error writing handshake to connection candidate socket"@,
        SingleRendezvousAttemptError::Read =>
            "error reading handshake on connection candidate socket"@,
        SingleRendezvousAttemptError::Decrypt => "error decrypting data"@,
        SingleRendezvousAttemptError::Encrypt => "error encrypting data"@,
    }
}

impl SingleRendezvousAttemptError {
    /// A short account of the fault.
    pub fn description(&self) -> (r: &'static str)
        ensures
            r@ == spec_attempt_description(*self),
    {
        match self {
            SingleRendezvousAttemptError::Connect(_) => "error performing reusable connect",
            SingleRendezvousAttemptError::Accept => "error accepting incoming stream",
            SingleRendezvousAttemptError::Write =>
                "error writing handshake to connection candidate socket",
            SingleRendezvousAttemptError::Read =>
                "error reading handshake on connection candidate socket",
            SingleRendezvousAttemptError::Decrypt => "error decrypting data",
            SingleRendezvousAttemptError::Encrypt => "error encrypting data",
        }
    }
}

} // verus!
