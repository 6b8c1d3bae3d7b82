//! The rendezvous server as a state machine.
//!
//! The server owns the peer registry and the pending stream connections.
//! Its caller owns the sockets, the outbound queue, the durable store and
//! the clock, and drives the server with one call per event: a message that
//! came by datagram, a message that came on a stream connection, or the
//! durable store's answer to a lookup. Each call returns what the caller is
//! to do next. No call blocks, so the caller may hold a lock on the server
//! for exactly the length of a call.

use crate::action::{
    Action, ActionView, Delivery, DeliveryView, Pending, PendingView, Step, StepView, StoreWrite,
    StoreWriteView, Transport, delivery_view,
};
use crate::endpoint::Endpoint;
use crate::message::{Incoming, IncomingView, Outgoing, OutgoingView};
use crate::peer::{view_of, Peer, PeerView, PersistedPeerRecordView};
use crate::peer_map::{key_is_unset, key_result, register_pk_spec, restore_spec, PeerMap};
use crate::pending::PendingTcpChannels;
use crate::protocol::{
    forwarded, handle_punch_hole_request, hole_sent_response, local_addr_response,
    make_hole_sent_response, make_local_addr_response, punch_decision, route_udp, routed_tcp,
    routed_udp, stream_delivery,
};
use vstd::prelude::*;

verus! {

/// The registry of peers and the stream connections that wait for a
/// forwarded answer. `S` is what the caller writes to a stream connection
/// with.
pub struct RendezvousServer<S> {
    pub tcp_punch: PendingTcpChannels<S>,
    pub pm: PeerMap,
}

/// The reading side of one accepted stream connection.
///
/// A connection reads until it has handled one report from a target, or
/// until the caller closes it. After that nothing that arrives on it is
/// handled.
pub struct StreamConnection {
    addr: Endpoint,
    reading: bool,
}

impl StreamConnection {
    /// The endpoint of the peer that opened the connection.
    pub closed spec fn addr(&self) -> Endpoint {
        self.addr
    }

    /// Whether messages that arrive on the connection are still handled.
    pub closed spec fn reading(&self) -> bool {
        self.reading
    }

    /// The endpoint of the peer that opened the connection.
    pub fn remote_addr(&self) -> (addr: Endpoint)
        ensures
            addr == self.addr(),
    {
        self.addr
    }

    /// Whether the caller is to go on reading from the connection.
    pub fn is_reading(&self) -> (reading: bool)
        ensures
            reading == self.reading(),
    {
        self.reading
    }
}

/// The registry and the step after a registration of `id` from
/// `socket_addr` at clock reading `now`.
///
/// A peer in the registry is refreshed in place and answered at once; the
/// answer asks for its public key while none is set. For any other id the
/// durable store is asked first.
pub open spec fn update_addr_step<S>(
    pm: Map<Seq<char>, PeerView>,
    id: Seq<char>,
    socket_addr: Endpoint,
    now: u64,
) -> (Map<Seq<char>, PeerView>, StepView<S>) {
    match pm.get(id) {
        Some(p) => (
            pm.insert(id, PeerView::registered(socket_addr, now, p.pk)),
            StepView::Done(
                ActionView::send(
                    Some(
                        DeliveryView::Datagram {
                            msg: OutgoingView::RegisterPeerResponse { request_pk: p.pk.len() == 0 },
                            to: socket_addr,
                        },
                    ),
                ),
            ),
        ),
        None => (
            pm,
            StepView::Lookup(PendingView::RegisterPeer { id, socket_addr, last_reg_time: now }),
        ),
    }
}

/// What follows the registration of the key `pk` for `id` from
/// `socket_addr`, where a lookup returned `peer`: the record is persisted
/// if the key was written, and the peer is answered.
pub open spec fn register_pk_action<S>(
    peer: Option<PeerView>,
    id: Seq<char>,
    socket_addr: Endpoint,
    pk: Seq<u8>,
) -> ActionView<S> {
    ActionView {
        store: if key_is_unset(peer) {
            Some(StoreWriteView { id, record: PersistedPeerRecordView::of(socket_addr, pk) })
        } else {
            None
        },
        send: Some(
            DeliveryView::Datagram {
                msg: OutgoingView::RegisterPkResponse { result: key_result(peer, pk) },
                to: socket_addr,
            },
        ),
    }
}

/// The step after a punch-hole request for `id` came by datagram from the
/// requester at `addr`. A target in the registry is decided on at once and
/// the outcome goes on the outbound queue; any other id is looked up in the
/// durable store first.
pub open spec fn udp_punch_step<S>(
    pm: Map<Seq<char>, PeerView>,
    id: Seq<char>,
    addr: Endpoint,
    now: u64,
) -> StepView<S> {
    match pm.get(id) {
        Some(p) => StepView::Done(
            ActionView::send(Some(routed_udp(punch_decision(Some(p), addr, now), addr))),
        ),
        None => StepView::Lookup(PendingView::PunchHole { id, addr, transport: Transport::Udp }),
    }
}

/// The pending connections and the step after a punch-hole request for `id`
/// came on the stream connection from the requester at `addr`. A target in
/// the registry is decided on at once and the outcome is routed as
/// [`routed_tcp`] says; any other id is looked up in the durable store
/// first.
pub open spec fn tcp_punch_step<S>(
    pm: Map<Seq<char>, PeerView>,
    pending: Map<Endpoint, S>,
    id: Seq<char>,
    addr: Endpoint,
    now: u64,
) -> (Map<Endpoint, S>, StepView<S>) {
    match pm.get(id) {
        Some(p) => {
            let routed = routed_tcp(pending, punch_decision(Some(p), addr, now), addr);
            (routed.0, StepView::Done(ActionView::send(routed.1)))
        },
        None => (
            pending,
            StepView::Lookup(PendingView::PunchHole { id, addr, transport: Transport::Tcp }),
        ),
    }
}

/// The registry and the step after the message `msg` came by datagram from
/// `addr` at clock reading `now`.
///
/// A registration with an empty id, a log message and a message of any
/// other kind change nothing and are not answered. A target's report is
/// answered to the requester it names, on the datagram socket.
pub open spec fn datagram_step<S>(
    pm: Map<Seq<char>, PeerView>,
    msg: IncomingView,
    addr: Endpoint,
    now: u64,
) -> (Map<Seq<char>, PeerView>, StepView<S>) {
    match msg {
        IncomingView::RegisterPeer { id } => if id.len() > 0 {
            update_addr_step(pm, id, addr, now)
        } else {
            (pm, StepView::Done(ActionView::nothing()))
        },
        IncomingView::RegisterPk { id, pk } => match pm.get(id) {
            Some(p) => (
                register_pk_spec(pm, Some(p), id, addr, pk, now),
                StepView::Done(register_pk_action(Some(p), id, addr, pk)),
            ),
            None => (pm, StepView::Lookup(PendingView::RegisterPk { id, socket_addr: addr, pk })),
        },
        IncomingView::PunchHoleRequest { id } => (pm, udp_punch_step(pm, id, addr, now)),
        IncomingView::PunchHoleSent { socket_addr } => (
            pm,
            StepView::Done(
                ActionView::send(
                    Some(DeliveryView::Datagram { msg: hole_sent_response(addr), to: socket_addr }),
                ),
            ),
        ),
        IncomingView::LocalAddr { socket_addr, local_addr } => (
            pm,
            StepView::Done(
                ActionView::send(
                    Some(
                        DeliveryView::Datagram {
                            msg: local_addr_response(local_addr),
                            to: socket_addr,
                        },
                    ),
                ),
            ),
        ),
        IncomingView::SystemInfo { .. } => (pm, StepView::Done(ActionView::nothing())),
        IncomingView::Unrecognized => (pm, StepView::Done(ActionView::nothing())),
    }
}

/// The server and a connection after a message on that connection.
pub struct StreamStep<S> {
    pub pending: Map<Endpoint, S>,
    pub reading: bool,
    pub step: StepView<S>,
}

/// What the message `msg` on the stream connection from `addr` leads to at
/// clock reading `now`, where `reading` says whether the connection is
/// still read.
///
/// On a connection that is no longer read nothing is handled. A punch-hole
/// request is handled and the connection stays. A target's report is
/// answered to the requester's pending connection, and then the connection
/// that carried the report is done: it leaves the pending connections and
/// is not read again. Any other message is passed over.
pub open spec fn stream_step<S>(
    pm: Map<Seq<char>, PeerView>,
    pending: Map<Endpoint, S>,
    addr: Endpoint,
    reading: bool,
    msg: IncomingView,
    now: u64,
) -> StreamStep<S> {
    if !reading {
        StreamStep { pending, reading: false, step: StepView::Done(ActionView::nothing()) }
    } else {
        match msg {
            IncomingView::PunchHoleRequest { id } => {
                let punched = tcp_punch_step(pm, pending, id, addr, now);
                StreamStep { pending: punched.0, reading: true, step: punched.1 }
            },
            IncomingView::PunchHoleSent { socket_addr } => {
                let sent = forwarded(pending, hole_sent_response(addr), socket_addr, Transport::Tcp);
                StreamStep {
                    pending: sent.0.remove(addr),
                    reading: false,
                    step: StepView::Done(ActionView::send(sent.1)),
                }
            },
            IncomingView::LocalAddr { socket_addr, local_addr } => {
                let sent = forwarded(
                    pending,
                    local_addr_response(local_addr),
                    socket_addr,
                    Transport::Tcp,
                );
                StreamStep {
                    pending: sent.0.remove(addr),
                    reading: false,
                    step: StepView::Done(ActionView::send(sent.1)),
                }
            },
            _ => StreamStep { pending, reading: true, step: StepView::Done(ActionView::nothing()) },
        }
    }
}

/// The server after the durable store answered the lookup for `waiting`
/// with `stored_pk`, the persisted public key if there is a record, at
/// clock reading `now`: the registry, the pending connections, and what the
/// caller is to do.
///
/// A registration enters the registry with the persisted key, or without a
/// key, and is answered through the outbound queue. A key registration and
/// a punch-hole request first complete their lookup as [`restore_spec`]
/// says and then go on as for a peer in the registry, with what that lookup
/// yields: never a key, and never a live peer.
pub open spec fn resumed<S>(
    pm: Map<Seq<char>, PeerView>,
    pending: Map<Endpoint, S>,
    waiting: PendingView,
    stored_pk: Option<Seq<u8>>,
    now: u64,
) -> (Map<Seq<char>, PeerView>, Map<Endpoint, S>, ActionView<S>) {
    match waiting {
        PendingView::RegisterPeer { id, socket_addr, last_reg_time } => {
            let pk = match stored_pk {
                Some(pk) => pk,
                None => Seq::empty(),
            };
            (
                pm.insert(id, PeerView::registered(socket_addr, last_reg_time, pk)),
                pending,
                ActionView::send(
                    Some(
                        DeliveryView::Queue {
                            msg: OutgoingView::RegisterPeerResponse { request_pk: pk.len() == 0 },
                            to: socket_addr,
                        },
                    ),
                ),
            )
        },
        PendingView::RegisterPk { id, socket_addr, pk } => {
            let found = restore_spec(pm, id, stored_pk);
            (
                register_pk_spec(found.0, found.1, id, socket_addr, pk, now),
                pending,
                register_pk_action(found.1, id, socket_addr, pk),
            )
        },
        PendingView::PunchHole { id, addr, transport } => {
            let found = restore_spec(pm, id, stored_pk);
            let decision = punch_decision(found.1, addr, now);
            match transport {
                Transport::Udp => (
                    found.0,
                    pending,
                    ActionView::send(Some(routed_udp(decision, addr))),
                ),
                Transport::Tcp => {
                    let routed = routed_tcp(pending, decision, addr);
                    (found.0, routed.0, ActionView::send(routed.1))
                },
            }
        },
    }
}

/// The value of stored bytes that may be absent.
pub open spec fn bytes_view(bytes: Option<Vec<u8>>) -> Option<Seq<u8>> {
    match bytes {
        Some(b) => Some(b@),
        None => None,
    }
}

impl<S> RendezvousServer<S> {
    /// The pending connections are well formed. [`RendezvousServer::new`]
    /// establishes this and every method keeps it.
    pub open spec fn wf(&self) -> bool {
        self.tcp_punch.wf()
    }

    /// A server that knows no peer and has no connection.
    pub fn new() -> (server: Self)
        ensures
            server.wf(),
            server.pm@ == Map::<Seq<char>, PeerView>::empty(),
            server.tcp_punch@ == Map::<Endpoint, S>::empty(),
    {
        RendezvousServer { tcp_punch: PendingTcpChannels::new(), pm: PeerMap::new() }
    }

    /// Takes the pending stream connection from `addr`, if there is one, to
    /// write `msg` to it without waiting for the write.
    pub fn send_to_tcp(&mut self, msg: Outgoing, addr: Endpoint) -> (delivery: Option<Delivery<S>>)
        requires
            old(self).wf(),
        ensures
            final(self).wf(),
            final(self).pm@ == old(self).pm@,
            final(self).tcp_punch@ == old(self).tcp_punch@.remove(addr),
            delivery_view(delivery) == stream_delivery(old(self).tcp_punch@, msg@, addr, false),
    {
        match self.tcp_punch.remove(&addr) {
            Some(sink) => Some(Delivery::Stream { msg, sink, wait: false }),
            None => None,
        }
    }

    /// Takes the pending stream connection from `addr`, if there is one, to
    /// write `msg` to it and wait for the write.
    pub fn send_to_tcp_sync(
        &mut self,
        msg: Outgoing,
        addr: Endpoint,
    ) -> (delivery: Option<Delivery<S>>)
        requires
            old(self).wf(),
        ensures
            final(self).wf(),
            final(self).pm@ == old(self).pm@,
            final(self).tcp_punch@ == old(self).tcp_punch@.remove(addr),
            delivery_view(delivery) == stream_delivery(old(self).tcp_punch@, msg@, addr, true),
    {
        match self.tcp_punch.remove(&addr) {
            Some(sink) => Some(Delivery::Stream { msg, sink, wait: true }),
            None => None,
        }
    }

    /// Forwards `msg` to the requester at `addr_a` in answer to a target's
    /// report that came in on `transport`; see [`forwarded`].
    fn forward(&mut self, msg: Outgoing, addr_a: Endpoint, transport: Transport) -> (delivery:
        Option<Delivery<S>>)
        requires
            old(self).wf(),
        ensures
            final(self).wf(),
            final(self).pm@ == old(self).pm@,
            (final(self).tcp_punch@, delivery_view(delivery)) == forwarded(
                old(self).tcp_punch@,
                msg@,
                addr_a,
                transport,
            ),
    {
        match transport {
            Transport::Udp => Some(Delivery::Datagram { msg, to: addr_a }),
            Transport::Tcp => self.send_to_tcp(msg, addr_a),
        }
    }

    /// Handles the report of the target observed at `addr` that it has
    /// punched towards the requester at `addr_a`: the requester is told
    /// where the target is.
    pub fn handle_hole_sent(
        &mut self,
        addr_a: Endpoint,
        addr: Endpoint,
        transport: Transport,
    ) -> (delivery: Option<Delivery<S>>)
        requires
            old(self).wf(),
        ensures
            final(self).wf(),
            final(self).pm@ == old(self).pm@,
            (final(self).tcp_punch@, delivery_view(delivery)) == forwarded(
                old(self).tcp_punch@,
                hole_sent_response(addr),
                addr_a,
                transport,
            ),
    {
        self.forward(make_hole_sent_response(addr), addr_a, transport)
    }

    /// Handles a target's report of its local addresses for the requester
    /// at `addr_a`: the requester is sent those bytes.
    pub fn handle_local_addr(
        &mut self,
        addr_a: Endpoint,
        local_addr: Vec<u8>,
        transport: Transport,
    ) -> (delivery: Option<Delivery<S>>)
        requires
            old(self).wf(),
        ensures
            final(self).wf(),
            final(self).pm@ == old(self).pm@,
            (final(self).tcp_punch@, delivery_view(delivery)) == forwarded(
                old(self).tcp_punch@,
                local_addr_response(local_addr@),
                addr_a,
                transport,
            ),
    {
        self.forward(make_local_addr_response(local_addr), addr_a, transport)
    }

    /// Routes the outcome of a punch-hole request from the requester at
    /// `addr`.
    fn route(&mut self, decision: (Outgoing, Option<Endpoint>), addr: Endpoint, transport: Transport)
        -> (action: Action<S>)
        requires
            old(self).wf(),
        ensures
            final(self).wf(),
            final(self).pm@ == old(self).pm@,
            match transport {
                Transport::Udp => final(self).tcp_punch@ == old(self).tcp_punch@ && action@
                    == ActionView::send(Some(routed_udp::<S>((decision.0@, decision.1), addr))),
                Transport::Tcp => (final(self).tcp_punch@, action@) == ({
                    let routed = routed_tcp(old(self).tcp_punch@, (decision.0@, decision.1), addr);
                    (routed.0, ActionView::send(routed.1))
                }),
            },
    {
        match transport {
            Transport::Udp => Action::send(Some(route_udp(decision, addr))),
            Transport::Tcp => {
                let (msg, target) = decision;
                match target {
                    Some(target) => Action::send(Some(Delivery::Queue { msg, to: target })),
                    None => {
                        let delivery = self.send_to_tcp_sync(msg, addr);
                        Action::send(delivery)
                    },
                }
            },
        }
    }

    /// Handles a punch-hole request for `id` that came on the stream
    /// connection from `addr`; see [`tcp_punch_step`].
    pub fn handle_tcp_punch_hole_request(&mut self, addr: Endpoint, id: String, now: u64) -> (step:
        Step<S>)
        requires
            old(self).wf(),
        ensures
            final(self).wf(),
            final(self).pm@ == old(self).pm@,
            (final(self).tcp_punch@, step@) == tcp_punch_step(
                old(self).pm@,
                old(self).tcp_punch@,
                id@,
                addr,
                now,
            ),
    {
        match self.pm.get(id.as_str()) {
            Some(peer) => {
                let decision = handle_punch_hole_request(Some(peer), addr, now);
                Step::Done(self.route(decision, addr, Transport::Tcp))
            },
            None => Step::Lookup(Pending::PunchHole { id, addr, transport: Transport::Tcp }),
        }
    }

    /// Handles a punch-hole request for `id` that came by datagram from
    /// `addr`; see [`udp_punch_step`].
    pub fn handle_udp_punch_hole_request(&mut self, addr: Endpoint, id: String, now: u64) -> (step:
        Step<S>)
        requires
            old(self).wf(),
        ensures
            final(self).wf(),
            final(self).pm@ == old(self).pm@,
            final(self).tcp_punch@ == old(self).tcp_punch@,
            step@ == udp_punch_step::<S>(old(self).pm@, id@, addr, now),
    {
        match self.pm.get(id.as_str()) {
            Some(peer) => {
                let decision = handle_punch_hole_request(Some(peer), addr, now);
                Step::Done(self.route(decision, addr, Transport::Udp))
            },
            None => Step::Lookup(Pending::PunchHole { id, addr, transport: Transport::Udp }),
        }
    }

    /// Handles a registration of `id` from `socket_addr`; see
    /// [`update_addr_step`].
    pub fn update_addr(&mut self, id: String, socket_addr: Endpoint, now: u64) -> (step: Step<S>)
        requires
            old(self).wf(),
        ensures
            final(self).wf(),
            final(self).tcp_punch@ == old(self).tcp_punch@,
            (final(self).pm@, step@) == update_addr_step::<S>(old(self).pm@, id@, socket_addr, now),
    {
        match self.pm.refresh(id.as_str(), socket_addr, now) {
            Some(request_pk) => Step::Done(
                Action::send(
                    Some(
                        Delivery::Datagram {
                            msg: Outgoing::RegisterPeerResponse { request_pk },
                            to: socket_addr,
                        },
                    ),
                ),
            ),
            None => Step::Lookup(Pending::RegisterPeer { id, socket_addr, last_reg_time: now }),
        }
    }

    /// Registers the key `pk` for `id` from `socket_addr`, where `peer` is
    /// what a lookup of `id` returned.
    fn register_pk(
        &mut self,
        peer: Option<Peer>,
        id: String,
        socket_addr: Endpoint,
        pk: Vec<u8>,
        now: u64,
    ) -> (action: Action<S>)
        requires
            old(self).wf(),
        ensures
            final(self).wf(),
            final(self).tcp_punch@ == old(self).tcp_punch@,
            final(self).pm@ == register_pk_spec(
                old(self).pm@,
                view_of(peer),
                id@,
                socket_addr,
                pk@,
                now,
            ),
            action@ == register_pk_action::<S>(view_of(peer), id@, socket_addr, pk@),
    {
        let key = id.clone();
        let (result, record) = self.pm.register_pk(peer, id, socket_addr, pk, now);
        Action {
            store: match record {
                Some(record) => Some(StoreWrite { id: key, record }),
                None => None,
            },
            send: Some(
                Delivery::Datagram { msg: Outgoing::RegisterPkResponse { result }, to: socket_addr },
            ),
        }
    }

    /// Handles the message `msg` that came by datagram from `addr` at clock
    /// reading `now`; see [`datagram_step`].
    pub fn handle_msg(&mut self, msg: Incoming, addr: Endpoint, now: u64) -> (step: Step<S>)
        requires
            old(self).wf(),
        ensures
            final(self).wf(),
            final(self).tcp_punch@ == old(self).tcp_punch@,
            (final(self).pm@, step@) == datagram_step::<S>(old(self).pm@, msg@, addr, now),
    {
        match msg {
            Incoming::RegisterPeer { id } => {
                if !id.as_str().is_empty() {
                    self.update_addr(id, addr, now)
                } else {
                    Step::Done(Action::nothing())
                }
            },
            Incoming::RegisterPk { id, pk } => match self.pm.get(id.as_str()) {
                Some(peer) => Step::Done(self.register_pk(Some(peer), id, addr, pk, now)),
                None => Step::Lookup(Pending::RegisterPk { id, socket_addr: addr, pk }),
            },
            Incoming::PunchHoleRequest { id } => self.handle_udp_punch_hole_request(addr, id, now),
            Incoming::PunchHoleSent { socket_addr } => Step::Done(
                Action::send(self.handle_hole_sent(socket_addr, addr, Transport::Udp)),
            ),
            Incoming::LocalAddr { socket_addr, local_addr } => Step::Done(
                Action::send(self.handle_local_addr(socket_addr, local_addr, Transport::Udp)),
            ),
            Incoming::SystemInfo { .. } => Step::Done(Action::nothing()),
            Incoming::Unrecognized => Step::Done(Action::nothing()),
        }
    }

    /// Registers the writing side `sink` of a stream connection that the
    /// peer at `addr` has opened, in place of an older connection from the
    /// same endpoint, and returns the state of its reading side.
    pub fn accept(&mut self, addr: Endpoint, sink: S) -> (conn: StreamConnection)
        requires
            old(self).wf(),
        ensures
            final(self).wf(),
            final(self).pm@ == old(self).pm@,
            final(self).tcp_punch@ == old(self).tcp_punch@.insert(addr, sink),
            conn.addr() == addr,
            conn.reading(),
    {
        self.tcp_punch.insert(addr, sink);
        StreamConnection { addr, reading: true }
    }

    /// Handles the message `msg` that came on the stream connection `conn`
    /// at clock reading `now`; see [`stream_step`].
    pub fn handle_tcp_msg(&mut self, conn: &mut StreamConnection, msg: Incoming, now: u64) -> (step:
        Step<S>)
        requires
            old(self).wf(),
        ensures
            final(self).wf(),
            final(self).pm@ == old(self).pm@,
            final(conn).addr() == old(conn).addr(),
            stream_step(
                old(self).pm@,
                old(self).tcp_punch@,
                old(conn).addr(),
                old(conn).reading(),
                msg@,
                now,
            ) == (StreamStep {
                pending: final(self).tcp_punch@,
                reading: final(conn).reading(),
                step: step@,
            }),
    {
        if !conn.reading {
            return Step::Done(Action::nothing());
        }
        let addr = conn.addr;
        match msg {
            Incoming::PunchHoleRequest { id } => self.handle_tcp_punch_hole_request(addr, id, now),
            Incoming::PunchHoleSent { socket_addr } => {
                let delivery = self.handle_hole_sent(socket_addr, addr, Transport::Tcp);
                let _ = self.tcp_punch.remove(&addr);
                conn.reading = false;
                Step::Done(Action::send(delivery))
            },
            Incoming::LocalAddr { socket_addr, local_addr } => {
                let delivery = self.handle_local_addr(socket_addr, local_addr, Transport::Tcp);
                let _ = self.tcp_punch.remove(&addr);
                conn.reading = false;
                Step::Done(Action::send(delivery))
            },
            _ => Step::Done(Action::nothing()),
        }
    }

    /// Ends the stream connection `conn`, because the peer closed it or
    /// reading from it failed: if it was still read, its entry leaves the
    /// pending connections. A connection that is already done is left as it
    /// is.
    pub fn close(&mut self, conn: &mut StreamConnection)
        requires
            old(self).wf(),
        ensures
            final(self).wf(),
            final(self).pm@ == old(self).pm@,
            final(conn).addr() == old(conn).addr(),
            !final(conn).reading(),
            final(self).tcp_punch@ == if old(conn).reading() {
                old(self).tcp_punch@.remove(old(conn).addr())
            } else {
                old(self).tcp_punch@
            },
    {
        if conn.reading {
            let _ = self.tcp_punch.remove(&conn.addr);
            conn.reading = false;
        }
    }

    /// Goes on with the request `waiting` now that the durable store has
    /// answered the lookup of its id: `stored_pk` is the public key of the
    /// persisted record, `None` if the store has no record. See
    /// [`resumed`].
    pub fn resume(&mut self, waiting: Pending, stored_pk: Option<Vec<u8>>, now: u64) -> (action:
        Action<S>)
        requires
            old(self).wf(),
        ensures
            final(self).wf(),
            (final(self).pm@, final(self).tcp_punch@, action@) == resumed(
                old(self).pm@,
                old(self).tcp_punch@,
                waiting@,
                bytes_view(stored_pk),
                now,
            ),
    {
        match waiting {
            Pending::RegisterPeer { id, socket_addr, last_reg_time } => {
                let pk = match stored_pk {
                    Some(pk) => pk,
                    None => Vec::new(),
                };
                let request_pk = pk.len() == 0;
                self.pm.insert(id, Peer { socket_addr, last_reg_time: Some(last_reg_time), pk });
                Action::send(
                    Some(
                        Delivery::Queue {
                            msg: Outgoing::RegisterPeerResponse { request_pk },
                            to: socket_addr,
                        },
                    ),
                )
            },
            Pending::RegisterPk { id, socket_addr, pk } => {
                let peer = self.pm.restore(id.clone(), stored_pk);
                self.register_pk(peer, id, socket_addr, pk, now)
            },
            Pending::PunchHole { id, addr, transport } => {
                let peer = self.pm.restore(id, stored_pk);
                let decision = handle_punch_hole_request(peer, addr, now);
                self.route(decision, addr, transport)
            },
        }
    }
}

} // verus!
