//! The rendezvous-address resolver: aggregate parallel echo queries.
//!
//! Several servers are asked in parallel what external address they see.
//! The resolver is purely an aggregation policy over the per-server
//! outcomes, given in completion order with the most recent last: with
//! fewer than two successes the attempt cannot trust any answer and fails
//! with the collected per-server errors; with agreement the NAT maps
//! endpoint-independently; with disagreement the mapping depends on the
//! destination and the most recently observed address is advertised.

use vstd::prelude::*;
use crate::addr::SocketAddress;
use crate::errors::{QueryPublicAddrError, RendezvousAddrError};

verus! {

/// The NAT mapping behaviour inferred from the echo replies. Advisory: the
/// engine does not alter its behaviour based on it.
#[derive(Clone, Copy, Debug, PartialEq, Eq, Structural)]
pub enum NatType {
    /// Every destination saw the same external address.
    EndpointIndependent,
    /// Different destinations saw different external addresses.
    AddressDependent,
    /// Different destination ports saw different external addresses.
    PortDependent,
    /// Not enough information.
    Unknown,
}

/// The addresses of the successful queries, in order.
pub open spec fn spec_successes(
    s: Seq<Result<SocketAddress, QueryPublicAddrError>>,
) -> Seq<SocketAddress>
    decreases s.len(),
{
    if s.len() == 0 {
        Seq::empty()
    } else {
        let rest = spec_successes(s.drop_last());
        match s.last() {
            Ok(a) => rest.push(a),
            Err(_) => rest,
        }
    }
}

/// The errors of the failed queries, in order.
pub open spec fn spec_failures(
    s: Seq<Result<SocketAddress, QueryPublicAddrError>>,
) -> Seq<QueryPublicAddrError>
    decreases s.len(),
{
    if s.len() == 0 {
        Seq::empty()
    } else {
        let rest = spec_failures(s.drop_last());
        match s.last() {
            Ok(_) => rest,
            Err(e) => rest.push(e),
        }
    }
}

/// Every reported address is the same.
pub open spec fn spec_all_same(s: Seq<SocketAddress>) -> bool {
    forall|i: int| 0 <= i < s.len() ==> #[trigger] s[i] == s[0]
}

/// Pick the address to advertise from the per-server outcomes, given in
/// completion order (most recent last). Fewer than two successes fail with
/// the per-server errors aggregated; unanimous replies give the first
/// address with an endpoint-independent mapping; disagreeing replies give
/// the most recent address with an address-dependent mapping.
pub fn rendezvous_addr(results: &Vec<Result<SocketAddress, QueryPublicAddrError>>) -> (r: Result<
    (SocketAddress, NatType),
    RendezvousAddrError,
>)
    ensures
        spec_successes(results@).len() < 2 ==> (r matches Err(e) && e.errors@ == spec_failures(
            results@,
        )),
        spec_successes(results@).len() >= 2 && spec_all_same(spec_successes(results@)) ==> r == Ok::<
            _,
            RendezvousAddrError,
        >((spec_successes(results@)[0], NatType::EndpointIndependent)),
        spec_successes(results@).len() >= 2 && !spec_all_same(spec_successes(results@)) ==> r
            == Ok::<_, RendezvousAddrError>(
            (spec_successes(results@).last(), NatType::AddressDependent),
        ),
{
    let mut oks: Vec<SocketAddress> = Vec::new();
    let mut errs: Vec<QueryPublicAddrError> = Vec::new();
    let mut i: usize = 0;
    proof {
        assert(results@.subrange(0, 0) =~= Seq::<
            Result<SocketAddress, QueryPublicAddrError>,
        >::empty());
        assert(oks@ =~= spec_successes(results@.subrange(0, 0)));
        assert(errs@ =~= spec_failures(results@.subrange(0, 0)));
    }
    while i < results.len()
        invariant
            i <= results@.len(),
            oks@ == spec_successes(results@.subrange(0, i as int)),
            errs@ == spec_failures(results@.subrange(0, i as int)),
        decreases results@.len() - i,
    {
        proof {
            assert(results@.subrange(0, i as int + 1).drop_last() =~= results@.subrange(
                0,
                i as int,
            ));
            assert(results@.subrange(0, i as int + 1).last() == results@[i as int]);
        }
        match &results[i] {
            Ok(a) => oks.push(*a),
            Err(e) => errs.push(*e),
        }
        i = i + 1;
    }
    proof {
        assert(results@.subrange(0, results@.len() as int) =~= results@);
    }
    if oks.len() < 2 {
        return Err(RendezvousAddrError { errors: errs });
    }
    let first = oks[0];
    let mut all_same = true;
    let mut j: usize = 1;
    while j < oks.len()
        invariant
            1 <= j <= oks@.len(),
            oks@.len() >= 2,
            first == oks@[0],
            all_same == (forall|k: int| 0 <= k < j ==> #[trigger] oks@[k] == oks@[0]),
        decreases oks@.len() - j,
    {
        if !(oks[j] == first) {
            all_same = false;
        }
        j = j + 1;
    }
    if all_same {
        Ok((first, NatType::EndpointIndependent))
    } else {
        let last = oks[oks.len() - 1];
        Ok((last, NatType::AddressDependent))
    }
}

} // verus!
