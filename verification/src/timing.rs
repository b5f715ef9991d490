//! The engine's timeout constants and the UDP retransmit schedule.
//!
//! All times are milliseconds relative to the start of the operation they
//! bound. The constants are build-time values, not per-call parameters.

use vstd::prelude::*;

verus! {

/// A UDP echo request is retransmitted this often until a reply arrives.
pub const UDP_RETRANSMIT_PERIOD_MS: u64 = 500;

/// A whole UDP echo query fails with a response timeout after this long.
pub const UDP_QUERY_TIMEOUT_MS: u64 = 3_000;

/// The window in which candidate connections may open during the race.
pub const RENDEZVOUS_TIMEOUT_MS: u64 = 10_000;

/// The wait for the peer's message on the signalling channel.
pub const RENDEZVOUS_INFO_EXCHANGE_TIMEOUT_MS: u64 = 120_000;

/// The retransmit schedule of one UDP echo query: send at once, then every
/// `UDP_RETRANSMIT_PERIOD_MS` until a reply arrives or the query deadline
/// `UDP_QUERY_TIMEOUT_MS` passes.
pub struct RetransmitTimer {
    next_send_ms: u64,
    deadline_ms: u64,
}

impl RetransmitTimer {
    /// When the next datagram is due.
    pub closed spec fn spec_next_send(&self) -> u64 {
        self.next_send_ms
    }

    /// When the whole query expires.
    pub closed spec fn spec_deadline(&self) -> u64 {
        self.deadline_ms
    }

    /// The deadline never moves, so `record_send` cannot overflow.
    pub closed spec fn wf(&self) -> bool {
        self.deadline_ms == UDP_QUERY_TIMEOUT_MS
    }

    /// Begin a query: the first send is due immediately.
    pub fn start() -> (r: RetransmitTimer)
        ensures
            r.wf(),
            r.spec_next_send() == 0,
            r.spec_deadline() == UDP_QUERY_TIMEOUT_MS,
    {
        RetransmitTimer { next_send_ms: 0, deadline_ms: UDP_QUERY_TIMEOUT_MS }
    }

    /// Whether a (re)transmission is due now: the period has elapsed since
    /// the last send and the query has not expired.
    pub fn should_send(&self, now_ms: u64) -> (r: bool)
        ensures
            r == (now_ms >= self.spec_next_send() && now_ms < self.spec_deadline()),
    {
        now_ms >= self.next_send_ms && now_ms < self.deadline_ms
    }

    /// Note a transmission: the next one falls due one period later.
    pub fn record_send(&mut self, now_ms: u64)
        requires
            old(self).wf(),
            now_ms < old(self).spec_deadline(),
        ensures
            final(self).wf(),
            final(self).spec_next_send() == now_ms + UDP_RETRANSMIT_PERIOD_MS,
            final(self).spec_deadline() == old(self).spec_deadline(),
    {
        self.next_send_ms = now_ms + UDP_RETRANSMIT_PERIOD_MS;
    }

    /// Whether the whole query has expired with no valid reply.
    pub fn expired(&self, now_ms: u64) -> (r: bool)
        ensures
            r == (now_ms >= self.spec_deadline()),
    {
        now_ms >= self.deadline_ms
    }
}

} // verus!
