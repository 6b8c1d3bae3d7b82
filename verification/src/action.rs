//! What the server asks of its caller: messages to deliver, records to
//! persist, and lookups in the durable store to come back with.

use crate::endpoint::Endpoint;
use crate::message::{Outgoing, OutgoingView};
use crate::peer::{PersistedPeerRecord, PersistedPeerRecordView};
use vstd::prelude::*;

verus! {

/// The transport a message came in on.
#[derive(Clone, Copy, Debug, PartialEq, Eq, Structural)]
pub enum Transport {
    /// The datagram socket: one message per datagram.
    Udp,
    /// A stream connection that the peer opened.
    Tcp,
}

/// One message to deliver, and how.
#[derive(Debug, PartialEq, Eq)]
pub enum Delivery<S> {
    /// Send `msg` to `to` on the datagram socket now; a failure is the
    /// caller's error.
    Datagram { msg: Outgoing, to: Endpoint },
    /// Put `msg` for `to` on the outbound queue, which is drained to the
    /// datagram socket.
    Queue { msg: Outgoing, to: Endpoint },
    /// Write `msg` to the stream connection `sink`, which has just been
    /// taken out of the pending connections. With `wait` the caller waits
    /// for the write and a failure is its error; without, the write is
    /// detached and a failure is dropped.
    Stream { msg: Outgoing, sink: S, wait: bool },
}

/// The mathematical value of a [`Delivery`].
pub enum DeliveryView<S> {
    Datagram { msg: OutgoingView, to: Endpoint },
    Queue { msg: OutgoingView, to: Endpoint },
    Stream { msg: OutgoingView, sink: S, wait: bool },
}

impl<S> View for Delivery<S> {
    type V = DeliveryView<S>;

    open spec fn view(&self) -> DeliveryView<S> {
        match *self {
            Delivery::Datagram { msg, to } => DeliveryView::Datagram { msg: msg@, to },
            Delivery::Queue { msg, to } => DeliveryView::Queue { msg: msg@, to },
            Delivery::Stream { msg, sink, wait } => DeliveryView::Stream { msg: msg@, sink, wait },
        }
    }
}

/// The value of a delivery that may be absent.
pub open spec fn delivery_view<S>(delivery: Option<Delivery<S>>) -> Option<DeliveryView<S>> {
    match delivery {
        Some(d) => Some(d@),
        None => None,
    }
}

/// A record to write to the durable store under `id`. The write is not
/// waited for and its failure is dropped.
#[derive(Clone, Debug, PartialEq, Eq)]
pub struct StoreWrite {
    pub id: String,
    pub record: PersistedPeerRecord,
}

/// The mathematical value of a [`StoreWrite`].
pub struct StoreWriteView {
    pub id: Seq<char>,
    pub record: PersistedPeerRecordView,
}

impl View for StoreWrite {
    type V = StoreWriteView;

    open spec fn view(&self) -> StoreWriteView {
        StoreWriteView { id: self.id@, record: self.record@ }
    }
}

/// What the caller is to do after the server has handled an event: first
/// the write, then the delivery, where there is one.
#[derive(Debug, PartialEq, Eq)]
pub struct Action<S> {
    pub store: Option<StoreWrite>,
    pub send: Option<Delivery<S>>,
}

/// The mathematical value of an [`Action`].
pub struct ActionView<S> {
    pub store: Option<StoreWriteView>,
    pub send: Option<DeliveryView<S>>,
}

impl<S> View for Action<S> {
    type V = ActionView<S>;

    open spec fn view(&self) -> ActionView<S> {
        ActionView {
            store: match self.store {
                Some(w) => Some(w@),
                None => None,
            },
            send: delivery_view(self.send),
        }
    }
}

impl<S> ActionView<S> {
    /// Nothing to do.
    pub open spec fn nothing() -> ActionView<S> {
        ActionView { store: None, send: None }
    }

    /// One delivery, if any, and no write.
    pub open spec fn send(delivery: Option<DeliveryView<S>>) -> ActionView<S> {
        ActionView { store: None, send: delivery }
    }
}

impl<S> Action<S> {
    /// Nothing to do.
    pub fn nothing() -> (action: Action<S>)
        ensures
            action@ == ActionView::<S>::nothing(),
    {
        Action { store: None, send: None }
    }

    /// One delivery, if any, and no write.
    pub fn send(delivery: Option<Delivery<S>>) -> (action: Action<S>)
        ensures
            action@ == ActionView::send(delivery_view(delivery)),
    {
        Action { store: None, send: delivery }
    }
}

/// A request that waits for the durable store's record of a peer id.
#[derive(Clone, Debug, PartialEq, Eq)]
pub enum Pending {
    /// A registration of `id` from `socket_addr`, received at clock reading
    /// `last_reg_time`.
    RegisterPeer { id: String, socket_addr: Endpoint, last_reg_time: u64 },
    /// A registration of the public key `pk` for `id` from `socket_addr`.
    RegisterPk { id: String, socket_addr: Endpoint, pk: Vec<u8> },
    /// A punch-hole request for `id` from the requester at `addr`, received
    /// on `transport`.
    PunchHole { id: String, addr: Endpoint, transport: Transport },
}

/// The mathematical value of a [`Pending`].
pub enum PendingView {
    RegisterPeer { id: Seq<char>, socket_addr: Endpoint, last_reg_time: u64 },
    RegisterPk { id: Seq<char>, socket_addr: Endpoint, pk: Seq<u8> },
    PunchHole { id: Seq<char>, addr: Endpoint, transport: Transport },
}

impl View for Pending {
    type V = PendingView;

    open spec fn view(&self) -> PendingView {
        match *self {
            Pending::RegisterPeer { id, socket_addr, last_reg_time } => PendingView::RegisterPeer {
                id: id@,
                socket_addr,
                last_reg_time,
            },
            Pending::RegisterPk { id, socket_addr, pk } => PendingView::RegisterPk {
                id: id@,
                socket_addr,
                pk: pk@,
            },
            Pending::PunchHole { id, addr, transport } => PendingView::PunchHole {
                id: id@,
                addr,
                transport,
            },
        }
    }
}

impl PendingView {
    /// The peer id whose record is wanted.
    pub open spec fn id(self) -> Seq<char> {
        match self {
            PendingView::RegisterPeer { id, .. } => id,
            PendingView::RegisterPk { id, .. } => id,
            PendingView::PunchHole { id, .. } => id,
        }
    }

    /// Whether the lookup is to run in a task of its own, so that whoever
    /// received the request goes on at once: a registration, and a
    /// punch-hole request that came by datagram. The other two are waited
    /// for where they arrived.
    pub open spec fn runs_detached(self) -> bool {
        match self {
            PendingView::RegisterPeer { .. } => true,
            PendingView::RegisterPk { .. } => false,
            PendingView::PunchHole { transport, .. } => transport == Transport::Udp,
        }
    }
}

impl Pending {
    /// The peer id whose record is wanted.
    pub fn id(&self) -> (id: &str)
        ensures
            id@ == self@.id(),
    {
        match self {
            Pending::RegisterPeer { id, .. } => id.as_str(),
            Pending::RegisterPk { id, .. } => id.as_str(),
            Pending::PunchHole { id, .. } => id.as_str(),
        }
    }

    /// Whether the lookup is to run in a task of its own.
    pub fn runs_detached(&self) -> (detached: bool)
        ensures
            detached == self@.runs_detached(),
    {
        match self {
            Pending::RegisterPeer { .. } => true,
            Pending::RegisterPk { .. } => false,
            Pending::PunchHole { transport, .. } => match transport {
                Transport::Udp => true,
                Transport::Tcp => false,
            },
        }
    }
}

/// How the handling of a message ended.
#[derive(Debug, PartialEq, Eq)]
pub enum Step<S> {
    /// The message is handled; the caller carries the action out.
    Done(Action<S>),
    /// The peer is not in the registry. The caller asks the durable store
    /// for the pending request's id and resumes with the answer.
    Lookup(Pending),
}

/// The mathematical value of a [`Step`].
pub enum StepView<S> {
    Done(ActionView<S>),
    Lookup(PendingView),
}

impl<S> View for Step<S> {
    type V = StepView<S>;

    open spec fn view(&self) -> StepView<S> {
        match *self {
            Step::Done(action) => StepView::Done(action@),
            Step::Lookup(pending) => StepView::Lookup(pending@),
        }
    }
}

} // verus!
