//! What the server answers, as functions of what it knows: the hole-punch
//! decision and the answers that are forwarded to a requester.

use crate::action::{Delivery, DeliveryView, Transport};
use crate::endpoint::Endpoint;
use crate::message::{AddrPayload, AddrPayloadView, Failure, Outgoing, OutgoingView};
use crate::peer::{view_of, Peer, PeerView};
use vstd::prelude::*;

verus! {

/// The server's move on a punch-hole request from the requester observed at
/// `addr`, where `peer` is what a lookup of the target returned and `now`
/// is the clock reading: the message to send, and the target's endpoint if
/// the message goes to the target.
///
/// An unknown target and a stale one are reported to the requester, and
/// nothing goes to the target. A live target on the requester's own address
/// is asked for its local addresses, because punching from behind one NAT
/// to the same NAT does not work; any other live target is told to punch.
/// Both messages carry the requester's endpoint as it was observed, never
/// one that the requester claimed.
pub open spec fn punch_decision(peer: Option<PeerView>, addr: Endpoint, now: u64) -> (
    OutgoingView,
    Option<Endpoint>,
) {
    match peer {
        None => (OutgoingView::failed(Failure::IdNotExist), None),
        Some(p) => if p.is_stale(now) {
            (OutgoingView::failed(Failure::Offline), None)
        } else if p.socket_addr.same_ip_spec(&addr) {
            (OutgoingView::FetchLocalAddr { socket_addr: addr }, Some(p.socket_addr))
        } else {
            (OutgoingView::PunchHole { socket_addr: addr }, Some(p.socket_addr))
        },
    }
}

/// Decides a punch-hole request; see [`punch_decision`].
pub fn handle_punch_hole_request(peer: Option<Peer>, addr: Endpoint, now: u64) -> (decision: (
    Outgoing,
    Option<Endpoint>,
))
    ensures
        (decision.0@, decision.1) == punch_decision(view_of(peer), addr, now),
{
    match peer {
        Some(peer) => {
            if peer.is_stale(now) {
                (Outgoing::failed(Failure::Offline), None)
            } else if peer.socket_addr.same_ip(&addr) {
                (Outgoing::FetchLocalAddr { socket_addr: addr }, Some(peer.socket_addr))
            } else {
                (Outgoing::PunchHole { socket_addr: addr }, Some(peer.socket_addr))
            }
        },
        None => (Outgoing::failed(Failure::IdNotExist), None),
    }
}

/// The answer to a requester whose target, observed at `addr`, reported that
/// it has punched: the target's endpoint.
pub open spec fn hole_sent_response(addr: Endpoint) -> OutgoingView {
    OutgoingView::PunchHoleResponse { address: AddrPayloadView::Observed(addr), failure: None }
}

/// The answer to a requester whose target reported the local addresses
/// `local_addr`: those bytes, as they came.
pub open spec fn local_addr_response(local_addr: Seq<u8>) -> OutgoingView {
    OutgoingView::PunchHoleResponse { address: AddrPayloadView::Raw(local_addr), failure: None }
}

/// Where the outcome of a punch-hole request that came by datagram goes: on
/// the outbound queue, to the target if there is one to tell, else back to
/// the requester at `addr`.
pub open spec fn routed_udp<S>(decision: (OutgoingView, Option<Endpoint>), addr: Endpoint)
    -> DeliveryView<S> {
    DeliveryView::Queue {
        msg: decision.0,
        to: match decision.1 {
            Some(target) => target,
            None => addr,
        },
    }
}

/// The write of `msg` to the pending stream connection from `addr`, if
/// `pending` has one.
pub open spec fn stream_delivery<S>(
    pending: Map<Endpoint, S>,
    msg: OutgoingView,
    addr: Endpoint,
    wait: bool,
) -> Option<DeliveryView<S>> {
    if pending.contains_key(addr) {
        Some(DeliveryView::Stream { msg, sink: pending[addr], wait })
    } else {
        None
    }
}

/// Where the outcome of a punch-hole request that came on the stream
/// connection from `addr` goes, and the pending connections after it.
///
/// A message for the target goes on the outbound queue. A failure has no
/// target: it is written to the requester's own connection and waited for,
/// and that connection leaves the pending ones.
pub open spec fn routed_tcp<S>(
    pending: Map<Endpoint, S>,
    decision: (OutgoingView, Option<Endpoint>),
    addr: Endpoint,
) -> (Map<Endpoint, S>, Option<DeliveryView<S>>) {
    match decision.1 {
        Some(target) => (pending, Some(DeliveryView::Queue { msg: decision.0, to: target })),
        None => (pending.remove(addr), stream_delivery(pending, decision.0, addr, true)),
    }
}

/// Where the answer `msg` for the requester at `addr_a` goes when the
/// target's report came in on `transport`, and the pending connections
/// after it.
///
/// An answer to a datagram goes out on the datagram socket. An answer to a
/// report on a stream goes to the requester's pending stream connection,
/// which is used up by it; without such a connection the answer is dropped.
pub open spec fn forwarded<S>(
    pending: Map<Endpoint, S>,
    msg: OutgoingView,
    addr_a: Endpoint,
    transport: Transport,
) -> (Map<Endpoint, S>, Option<DeliveryView<S>>) {
    match transport {
        Transport::Udp => (pending, Some(DeliveryView::Datagram { msg, to: addr_a })),
        Transport::Tcp => (pending.remove(addr_a), stream_delivery(pending, msg, addr_a, false)),
    }
}

/// Routes the outcome of a punch-hole request that came by datagram; see
/// [`routed_udp`].
pub fn route_udp<S>(decision: (Outgoing, Option<Endpoint>), addr: Endpoint) -> (delivery: Delivery<S>)
    ensures
        delivery@ == routed_udp::<S>((decision.0@, decision.1), addr),
{
    let (msg, target) = decision;
    Delivery::Queue {
        msg,
        to: match target {
            Some(target) => target,
            None => addr,
        },
    }
}

/// Builds the answer to a requester after its target reported a punch; see
/// [`hole_sent_response`].
pub fn make_hole_sent_response(addr: Endpoint) -> (msg: Outgoing)
    ensures
        msg@ == hole_sent_response(addr),
{
    Outgoing::PunchHoleResponse { address: AddrPayload::Observed(addr), failure: None }
}

/// Builds the answer to a requester after its target reported local
/// addresses; see [`local_addr_response`].
pub fn make_local_addr_response(local_addr: Vec<u8>) -> (msg: Outgoing)
    ensures
        msg@ == local_addr_response(local_addr@),
{
    Outgoing::PunchHoleResponse { address: AddrPayload::Raw(local_addr), failure: None }
}

} // verus!
