//! Decision core of a rendezvous server for peer-to-peer hole punching.
//!
//! Two peers behind NAT find each other through the server: the target keeps
//! a registration fresh, the requester asks for the target by id, and the
//! server tells the target how to reach the requester. Everything the server
//! decides is here; sockets, the durable store, the clock and the wire
//! encoding are the caller's business and reach this crate as plain values.
//!
//! The caller feeds a [`RendezvousServer`] one event at a time:
//!
//! - a message that came by datagram, to [`RendezvousServer::handle_msg`];
//! - a new stream connection, to [`RendezvousServer::accept`], and then each
//!   message that comes on it to [`RendezvousServer::handle_tcp_msg`] for as
//!   long as the connection is read, and its end to
//!   [`RendezvousServer::close`];
//! - the durable store's answer to a lookup that a [`Step::Lookup`] asked
//!   for, to [`RendezvousServer::resume`].
//!
//! Each event ends in an [`Action`]: at most one record to persist and at
//! most one message to deliver. Time is a reading of a monotonic millisecond
//! clock that the caller passes in.
//!
//! What each call does is defined once, on mathematical values, by the
//! `open spec` functions of [`server`], [`protocol`] and [`peer_map`]; the
//! executable functions are proved to compute exactly that, and [`laws`]
//! proves what follows for sequences of calls.

pub mod action;
pub mod endpoint;
pub mod laws;
pub mod message;
pub mod peer;
pub mod peer_map;
pub mod pending;
pub mod protocol;
pub mod server;

pub use action::{
    Action, ActionView, Delivery, DeliveryView, Pending, PendingView, Step, StepView, StoreWrite,
    StoreWriteView, Transport,
};
pub use endpoint::{Endpoint, IpAddress};
pub use message::{
    AddrPayload, AddrPayloadView, Failure, Incoming, IncomingView, Outgoing, OutgoingView,
    RegisterPkResult,
};
pub use peer::{Peer, PeerView, PersistedPeerRecord, PersistedPeerRecordView, REG_TIMEOUT};
pub use peer_map::PeerMap;
pub use pending::PendingTcpChannels;
pub use protocol::handle_punch_hole_request;
pub use server::{RendezvousServer, StreamConnection};
