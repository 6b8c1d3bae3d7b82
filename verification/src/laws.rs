//! What holds of the server whatever it is asked: the laws that relate
//! several steps, proved from the definitions of the steps.

use crate::action::{ActionView, DeliveryView, PendingView, StepView, Transport};
use crate::endpoint::Endpoint;
use crate::message::{Failure, IncomingView, OutgoingView, RegisterPkResult};
use crate::peer::PeerView;
use crate::peer_map::{register_public_key, restore_spec};
use crate::protocol::stream_delivery;
use crate::server::{datagram_step, resumed, stream_step, tcp_punch_step, StreamStep};
use vstd::prelude::*;

verus! {

/// The answer that an action carries to a key registration, if it carries
/// one.
pub open spec fn key_answer<S>(action: ActionView<S>) -> Option<RegisterPkResult> {
    match action.send {
        Some(DeliveryView::Datagram { msg: OutgoingView::RegisterPkResponse { result }, .. }) => Some(
            result,
        ),
        _ => None,
    }
}

/// A key registration that comes by datagram does what
/// [`register_public_key`] says, in one step for a peer in the registry and
/// in two, around the lookup in the durable store, for any other. The
/// clock reading that counts is that of the step that decides.
pub proof fn lemma_register_pk_steps<S>(
    pm: Map<Seq<char>, PeerView>,
    pending: Map<Endpoint, S>,
    id: Seq<char>,
    pk: Seq<u8>,
    addr: Endpoint,
    now: u64,
    stored_pk: Option<Seq<u8>>,
    later: u64,
)
    ensures
        match datagram_step::<S>(pm, IncomingView::RegisterPk { id, pk }, addr, now) {
            (after, StepView::Done(action)) => {
                &&& pm.contains_key(id)
                &&& key_answer(action) is Some
                &&& (after, key_answer(action)->0) == register_public_key(
                    pm,
                    id,
                    addr,
                    pk,
                    now,
                    stored_pk,
                )
            },
            (after, StepView::Lookup(waiting)) => {
                let end = resumed(pm, pending, waiting, stored_pk, later);
                &&& !pm.contains_key(id)
                &&& after == pm
                &&& waiting.id() == id
                &&& end.1 == pending
                &&& key_answer(end.2) is Some
                &&& (end.0, key_answer(end.2)->0) == register_public_key(
                    pm,
                    id,
                    addr,
                    pk,
                    later,
                    stored_pk,
                )
            },
        },
{
}

/// Registering a key is idempotent: when a registration of `pk` for `id`
/// is answered `Okay`, the registry holds `pk` for `id`, and the same
/// registration again is answered `Okay` and leaves `pk` in place,
/// wherever the two come from, whenever they come and whatever the
/// durable store answers. The first is answered `Okay` unless the registry
/// holds another key for `id`.
pub proof fn lemma_register_pk_idempotent(
    pm: Map<Seq<char>, PeerView>,
    id: Seq<char>,
    pk: Seq<u8>,
    addr1: Endpoint,
    now1: u64,
    stored1: Option<Seq<u8>>,
    addr2: Endpoint,
    now2: u64,
    stored2: Option<Seq<u8>>,
)
    ensures
        ({
            let first = register_public_key(pm, id, addr1, pk, now1, stored1);
            let second = register_public_key(first.0, id, addr2, pk, now2, stored2);
            &&& first.1 == RegisterPkResult::Okay <==> !(pm.contains_key(id) && pm[id].pk.len() > 0
                && pm[id].pk != pk)
            &&& first.1 == RegisterPkResult::Okay ==> {
                &&& first.0.contains_key(id)
                &&& first.0[id].pk == pk
                &&& second.1 == RegisterPkResult::Okay
                &&& second.0.contains_key(id)
                &&& second.0[id].pk == pk
            }
        }),
{
}

/// A key that is set cannot be replaced: while the registry holds the
/// non-empty key `k1` for `id`, a registration of any other key for `id` is
/// answered `PkMismatch` and changes nothing.
pub proof fn lemma_register_pk_immutable(
    pm: Map<Seq<char>, PeerView>,
    id: Seq<char>,
    k1: Seq<u8>,
    k2: Seq<u8>,
    addr: Endpoint,
    now: u64,
    stored_pk: Option<Seq<u8>>,
)
    requires
        pm.contains_key(id),
        pm[id].pk == k1,
        k1.len() > 0,
        k2 != k1,
    ensures
        register_public_key(pm, id, addr, k2, now, stored_pk) == (pm, RegisterPkResult::PkMismatch),
{
}

/// No message makes the registry forget a peer or change a key that is
/// set: after any message by datagram every peer is still there, and where
/// it had a non-empty key it has the same key. Messages on a stream never
/// change the registry at all.
pub proof fn lemma_datagram_keeps_keys<S>(
    pm: Map<Seq<char>, PeerView>,
    msg: IncomingView,
    addr: Endpoint,
    now: u64,
    id: Seq<char>,
)
    requires
        pm.contains_key(id),
    ensures
        ({
            let after = datagram_step::<S>(pm, msg, addr, now).0;
            &&& after.contains_key(id)
            &&& pm[id].pk.len() > 0 ==> after[id].pk == pm[id].pk
        }),
{
}

/// No answer of the durable store makes the registry forget a peer, and
/// none touches a peer other than the one that was looked up.
pub proof fn lemma_resume_keeps_peers<S>(
    pm: Map<Seq<char>, PeerView>,
    pending: Map<Endpoint, S>,
    waiting: PendingView,
    stored_pk: Option<Seq<u8>>,
    now: u64,
    id: Seq<char>,
)
    requires
        pm.contains_key(id),
    ensures
        ({
            let after = resumed(pm, pending, waiting, stored_pk, now).0;
            &&& after.contains_key(id)
            &&& id != waiting.id() ==> after[id] == pm[id]
        }),
{
}

/// Who is asked to do what. A message on a stream and a lookup that runs
/// detached never ask for a send on the datagram socket, which only the
/// dispatch loop holds: they use the outbound queue or a stream
/// connection. A lookup that a message on a stream calls for is waited for
/// on that stream. Only the registration of a key asks for a write to the
/// durable store.
pub proof fn lemma_deliveries_fit_the_caller<S>(
    pm: Map<Seq<char>, PeerView>,
    pending: Map<Endpoint, S>,
    addr: Endpoint,
    reading: bool,
    msg: IncomingView,
    waiting: PendingView,
    stored_pk: Option<Seq<u8>>,
    now: u64,
)
    ensures
        match stream_step(pm, pending, addr, reading, msg, now).step {
            StepView::Done(action) => action.store is None && !(action.send matches Some(
                DeliveryView::Datagram { .. },
            )),
            StepView::Lookup(w) => !w.runs_detached(),
        },
        waiting.runs_detached() ==> !(resumed(pm, pending, waiting, stored_pk, now).2.send matches Some(
            DeliveryView::Datagram { .. },
        )),
        resumed(pm, pending, waiting, stored_pk, now).2.store is Some ==> waiting is RegisterPk,
        match datagram_step::<S>(pm, msg, addr, now).1 {
            StepView::Done(action) => action.store is Some ==> msg is RegisterPk,
            StepView::Lookup(_) => true,
        },
{
}

/// A key registration that had to ask the durable store is accepted
/// whatever the store holds: the lookup yields no key, so the key that is
/// persisted for the peer does not stand in the way of a new one.
pub proof fn lemma_cold_key_registration_accepts(
    pm: Map<Seq<char>, PeerView>,
    id: Seq<char>,
    pk: Seq<u8>,
    addr: Endpoint,
    now: u64,
    stored_pk: Option<Seq<u8>>,
)
    requires
        !pm.contains_key(id),
    ensures
        register_public_key(pm, id, addr, pk, now, stored_pk) == (
            pm.insert(id, PeerView::registered(addr, now, pk)),
            RegisterPkResult::Okay,
        ),
{
    let found = restore_spec(pm, id, stored_pk);
    assert(found.0.insert(id, PeerView::registered(addr, now, pk)) =~= pm.insert(
        id,
        PeerView::registered(addr, now, pk),
    ));
}

/// A punch-hole request for an id that neither the registry nor the
/// durable store knows is answered `IdNotExist` to the requester, and to
/// nobody else: by datagram through the outbound queue, on a stream on the
/// requester's own connection, which is used up by it. The registry stays
/// as it is.
pub proof fn lemma_unknown_id<S>(
    pm: Map<Seq<char>, PeerView>,
    pending: Map<Endpoint, S>,
    id: Seq<char>,
    addr: Endpoint,
    now: u64,
    later: u64,
)
    requires
        !pm.contains_key(id),
    ensures
        datagram_step::<S>(pm, IncomingView::PunchHoleRequest { id }, addr, now) == (
            pm,
            StepView::<S>::Lookup(PendingView::PunchHole { id, addr, transport: Transport::Udp }),
        ),
        resumed(
            pm,
            pending,
            PendingView::PunchHole { id, addr, transport: Transport::Udp },
            None,
            later,
        ) == (
            pm,
            pending,
            ActionView::<S>::send(
                Some(
                    DeliveryView::Queue { msg: OutgoingView::failed(Failure::IdNotExist), to: addr },
                ),
            ),
        ),
        tcp_punch_step(pm, pending, id, addr, now) == (
            pending,
            StepView::<S>::Lookup(PendingView::PunchHole { id, addr, transport: Transport::Tcp }),
        ),
        resumed(
            pm,
            pending,
            PendingView::PunchHole { id, addr, transport: Transport::Tcp },
            None,
            later,
        ) == (
            pm,
            pending.remove(addr),
            ActionView::send(
                stream_delivery(pending, OutgoingView::failed(Failure::IdNotExist), addr, true),
            ),
        ),
{
}

/// A punch-hole request for a peer whose registration is `REG_TIMEOUT`
/// milliseconds old or older is answered `Offline` to the requester, and to
/// nobody else: by datagram through the outbound queue, on a stream on the
/// requester's own connection, which is used up by it. The peer stays in
/// the registry as it is.
pub proof fn lemma_stale_target<S>(
    pm: Map<Seq<char>, PeerView>,
    pending: Map<Endpoint, S>,
    id: Seq<char>,
    addr: Endpoint,
    now: u64,
)
    requires
        pm.contains_key(id),
        pm[id].is_stale(now),
    ensures
        datagram_step::<S>(pm, IncomingView::PunchHoleRequest { id }, addr, now) == (
            pm,
            StepView::<S>::Done(
                ActionView::send(
                    Some(
                        DeliveryView::Queue {
                            msg: OutgoingView::failed(Failure::Offline),
                            to: addr,
                        },
                    ),
                ),
            ),
        ),
        tcp_punch_step(pm, pending, id, addr, now) == (
            pending.remove(addr),
            StepView::Done(
                ActionView::send(
                    stream_delivery(pending, OutgoingView::failed(Failure::Offline), addr, true),
                ),
            ),
        ),
{
}

/// A punch-hole request for a live peer is forwarded to that peer's last
/// known endpoint through the outbound queue, on either transport, with
/// the requester's observed endpoint in it: as a request for local
/// addresses where requester and target have the same IP address, as an
/// order to punch where they do not. Nothing else changes.
pub proof fn lemma_live_target<S>(
    pm: Map<Seq<char>, PeerView>,
    pending: Map<Endpoint, S>,
    id: Seq<char>,
    addr: Endpoint,
    now: u64,
)
    requires
        pm.contains_key(id),
        !pm[id].is_stale(now),
    ensures
        ({
            let forward = StepView::Done(
                ActionView::<S>::send(
                    Some(
                        DeliveryView::Queue {
                            msg: if pm[id].socket_addr.ip == addr.ip {
                                OutgoingView::FetchLocalAddr { socket_addr: addr }
                            } else {
                                OutgoingView::PunchHole { socket_addr: addr }
                            },
                            to: pm[id].socket_addr,
                        },
                    ),
                ),
            );
            &&& datagram_step::<S>(pm, IncomingView::PunchHoleRequest { id }, addr, now) == (
                pm,
                forward,
            )
            &&& tcp_punch_step(pm, pending, id, addr, now) == (pending, forward)
        }),
{
}

/// A stream connection forwards once: after a target's report on a
/// connection that is read, the connection is no longer read and no longer
/// pending, and whatever arrives on it afterwards, at any time and in any
/// state of the registry, is not handled and changes nothing.
pub proof fn lemma_stream_single_use<S>(
    pm: Map<Seq<char>, PeerView>,
    pending: Map<Endpoint, S>,
    addr: Endpoint,
    msg: IncomingView,
    now: u64,
    pm_later: Map<Seq<char>, PeerView>,
    next: IncomingView,
    later: u64,
)
    requires
        msg.is_forwarding(),
    ensures
        ({
            let first = stream_step(pm, pending, addr, true, msg, now);
            let second = stream_step(pm_later, first.pending, addr, first.reading, next, later);
            &&& !first.reading
            &&& !first.pending.contains_key(addr)
            &&& second == (StreamStep {
                pending: first.pending,
                reading: false,
                step: StepView::Done(ActionView::nothing()),
            })
        }),
{
}

} // verus!
