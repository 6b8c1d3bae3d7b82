//! The messages peers and server exchange, as values.
//!
//! On the wire an endpoint inside a message travels obfuscated, and the whole
//! message is encoded as a tagged union. Both encodings are applied where
//! bytes are read and written, outside this crate: here a message that
//! carries an endpoint holds the endpoint itself.

use crate::endpoint::Endpoint;
use vstd::prelude::*;

verus! {

/// Outcome of an attempt to register a public key.
#[derive(Clone, Copy, Debug, PartialEq, Eq, Structural)]
pub enum RegisterPkResult {
    /// The key is now, or was already, the peer's key.
    Okay,
    /// Another key is set for the peer; nothing was changed.
    PkMismatch,
}

/// Why a punch-hole request was not forwarded to its target.
#[derive(Clone, Copy, Debug, PartialEq, Eq, Structural)]
pub enum Failure {
    Offline,
    IdNotExist,
}

/// A message a peer sends to the server.
#[derive(Clone, Debug, PartialEq, Eq)]
pub enum Incoming {
    /// A peer creates or refreshes its registration.
    RegisterPeer { id: String },
    /// A peer registers its public key.
    RegisterPk { id: String, pk: Vec<u8> },
    /// A requester asks to be connected to the peer `id`.
    PunchHoleRequest { id: String },
    /// A target reports that it has punched towards the requester at
    /// `socket_addr`.
    PunchHoleSent { socket_addr: Endpoint },
    /// A target reports its local addresses for the requester at
    /// `socket_addr`.
    LocalAddr { socket_addr: Endpoint, local_addr: Vec<u8> },
    /// Free text for the server's log.
    SystemInfo { value: String },
    /// Any other message.
    Unrecognized,
}

/// The mathematical value of an [`Incoming`].
pub enum IncomingView {
    RegisterPeer { id: Seq<char> },
    RegisterPk { id: Seq<char>, pk: Seq<u8> },
    PunchHoleRequest { id: Seq<char> },
    PunchHoleSent { socket_addr: Endpoint },
    LocalAddr { socket_addr: Endpoint, local_addr: Seq<u8> },
    SystemInfo { value: Seq<char> },
    Unrecognized,
}

impl View for Incoming {
    type V = IncomingView;

    open spec fn view(&self) -> IncomingView {
        match *self {
            Incoming::RegisterPeer { id } => IncomingView::RegisterPeer { id: id@ },
            Incoming::RegisterPk { id, pk } => IncomingView::RegisterPk { id: id@, pk: pk@ },
            Incoming::PunchHoleRequest { id } => IncomingView::PunchHoleRequest { id: id@ },
            Incoming::PunchHoleSent { socket_addr } => IncomingView::PunchHoleSent { socket_addr },
            Incoming::LocalAddr { socket_addr, local_addr } => IncomingView::LocalAddr {
                socket_addr,
                local_addr: local_addr@,
            },
            Incoming::SystemInfo { value } => IncomingView::SystemInfo { value: value@ },
            Incoming::Unrecognized => IncomingView::Unrecognized,
        }
    }
}

impl IncomingView {
    /// Whether the message makes the server forward an answer to a
    /// requester: the two reports a target sends after a punch-hole request.
    pub open spec fn is_forwarding(self) -> bool {
        self is PunchHoleSent || self is LocalAddr
    }
}

/// The address field of a punch-hole response.
#[derive(Clone, Debug, PartialEq, Eq)]
pub enum AddrPayload {
    /// An endpoint the server observed, to be obfuscated on the wire.
    Observed(Endpoint),
    /// Bytes a peer supplied, passed on as they came.
    Raw(Vec<u8>),
}

/// The mathematical value of an [`AddrPayload`].
pub enum AddrPayloadView {
    Observed(Endpoint),
    Raw(Seq<u8>),
}

impl View for AddrPayload {
    type V = AddrPayloadView;

    open spec fn view(&self) -> AddrPayloadView {
        match *self {
            AddrPayload::Observed(e) => AddrPayloadView::Observed(e),
            AddrPayload::Raw(bytes) => AddrPayloadView::Raw(bytes@),
        }
    }
}

/// A message the server sends to a peer.
#[derive(Clone, Debug, PartialEq, Eq)]
pub enum Outgoing {
    /// Answer to a registration; `request_pk` asks the peer to register its
    /// public key next.
    RegisterPeerResponse { request_pk: bool },
    /// Answer to a key registration.
    RegisterPkResponse { result: RegisterPkResult },
    /// Tells a target on another network to punch towards the requester at
    /// `socket_addr`.
    PunchHole { socket_addr: Endpoint },
    /// Asks a target on the requester's own network for its local
    /// addresses; `socket_addr` is the requester.
    FetchLocalAddr { socket_addr: Endpoint },
    /// Answer to a requester: where the target is, or why it cannot be
    /// reached.
    PunchHoleResponse { address: AddrPayload, failure: Option<Failure> },
}

/// The mathematical value of an [`Outgoing`].
pub enum OutgoingView {
    RegisterPeerResponse { request_pk: bool },
    RegisterPkResponse { result: RegisterPkResult },
    PunchHole { socket_addr: Endpoint },
    FetchLocalAddr { socket_addr: Endpoint },
    PunchHoleResponse { address: AddrPayloadView, failure: Option<Failure> },
}

impl View for Outgoing {
    type V = OutgoingView;

    open spec fn view(&self) -> OutgoingView {
        match *self {
            Outgoing::RegisterPeerResponse { request_pk } => OutgoingView::RegisterPeerResponse {
                request_pk,
            },
            Outgoing::RegisterPkResponse { result } => OutgoingView::RegisterPkResponse { result },
            Outgoing::PunchHole { socket_addr } => OutgoingView::PunchHole { socket_addr },
            Outgoing::FetchLocalAddr { socket_addr } => OutgoingView::FetchLocalAddr { socket_addr },
            Outgoing::PunchHoleResponse { address, failure } => OutgoingView::PunchHoleResponse {
                address: address@,
                failure,
            },
        }
    }
}

impl OutgoingView {
    /// The punch-hole response that reports `failure` and carries no
    /// address.
    pub open spec fn failed(failure: Failure) -> OutgoingView {
        OutgoingView::PunchHoleResponse {
            address: AddrPayloadView::Raw(Seq::empty()),
            failure: Some(failure),
        }
    }
}

impl Outgoing {
    /// The punch-hole response that reports `failure` and carries no
    /// address.
    pub fn failed(failure: Failure) -> (msg: Outgoing)
        ensures
            msg@ == OutgoingView::failed(failure),
    {
        Outgoing::PunchHoleResponse { address: AddrPayload::Raw(Vec::new()), failure: Some(failure) }
    }
}

} // verus!
