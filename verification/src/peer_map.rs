//! The peer registry: what the server remembers of each peer id while it
//! runs.
//!
//! The registry is a cache in front of a durable store that the caller
//! owns. Nothing here reads or writes that store. An operation that needs a
//! persisted record takes it as an argument, and one that changes what
//! should be persisted returns the record to write.

use crate::endpoint::Endpoint;
use crate::message::RegisterPkResult;
use crate::peer::{view_of, Peer, PeerView, PersistedPeerRecord, PersistedPeerRecordView};
use vstd::hash_map::StringHashMap;
use vstd::prelude::*;

verus! {

/// Peers by id. Entries are never removed.
pub struct PeerMap {
    map: StringHashMap<Peer>,
}

impl View for PeerMap {
    type V = Map<Seq<char>, PeerView>;

    closed spec fn view(&self) -> Map<Seq<char>, PeerView> {
        self.map@.map_values(|p: Peer| p@)
    }
}

/// Whether a public key may be written for a peer that a lookup returned as
/// `peer`: there is no record, or its key is unset.
pub open spec fn key_is_unset(peer: Option<PeerView>) -> bool {
    match peer {
        None => true,
        Some(p) => p.pk.len() == 0,
    }
}

/// The answer to the registration of the key `pk` for a peer that a lookup
/// returned as `peer`: a mismatch where a key is set and differs from `pk`.
pub open spec fn key_result(peer: Option<PeerView>, pk: Seq<u8>) -> RegisterPkResult {
    match peer {
        None => RegisterPkResult::Okay,
        Some(p) => if p.pk.len() == 0 || p.pk == pk {
            RegisterPkResult::Okay
        } else {
            RegisterPkResult::PkMismatch
        },
    }
}

/// What looking `id` up gives and leaves behind when `id` is not in the
/// registry and the durable store answered `stored_pk`.
///
/// A persisted key enters the registry in a record without address, never
/// heard from. The lookup itself still yields the bare placeholder, without
/// the key.
pub open spec fn restore_spec(
    cache: Map<Seq<char>, PeerView>,
    id: Seq<char>,
    stored_pk: Option<Seq<u8>>,
) -> (Map<Seq<char>, PeerView>, Option<PeerView>) {
    match stored_pk {
        Some(pk) => (cache.insert(id, PeerView::restored(pk)), Some(PeerView::placeholder())),
        None => (cache, None),
    }
}

/// The registry after the registration of the key `pk` for `id`, when a
/// lookup returned `peer`.
pub open spec fn register_pk_spec(
    cache: Map<Seq<char>, PeerView>,
    peer: Option<PeerView>,
    id: Seq<char>,
    socket_addr: Endpoint,
    pk: Seq<u8>,
    now: u64,
) -> Map<Seq<char>, PeerView> {
    if key_is_unset(peer) {
        cache.insert(id, PeerView::registered(socket_addr, now, pk))
    } else {
        cache
    }
}

/// What looking `id` up gives and leaves behind: the record in the
/// registry where there is one, else what [`restore_spec`] says of the
/// durable store's answer `stored_pk`.
pub open spec fn lookup_spec(
    cache: Map<Seq<char>, PeerView>,
    id: Seq<char>,
    stored_pk: Option<Seq<u8>>,
) -> (Map<Seq<char>, PeerView>, Option<PeerView>) {
    if cache.contains_key(id) {
        (cache, Some(cache[id]))
    } else {
        restore_spec(cache, id, stored_pk)
    }
}

/// The registry and the answer after a peer at `socket_addr` asked to
/// register the key `pk` for `id` at clock reading `now`, where the durable
/// store answers `stored_pk` if it is asked.
pub open spec fn register_public_key(
    cache: Map<Seq<char>, PeerView>,
    id: Seq<char>,
    socket_addr: Endpoint,
    pk: Seq<u8>,
    now: u64,
    stored_pk: Option<Seq<u8>>,
) -> (Map<Seq<char>, PeerView>, RegisterPkResult) {
    let found = lookup_spec(cache, id, stored_pk);
    (register_pk_spec(found.0, found.1, id, socket_addr, pk, now), key_result(found.1, pk))
}

/// Whether two byte strings are the same.
fn same_bytes(a: &Vec<u8>, b: &Vec<u8>) -> (same: bool)
    ensures
        same == (a@ == b@),
{
    let same = a == b;
    proof {
        if same {
            assert(a@ =~= b@);
        }
    }
    same
}

impl PeerMap {
    /// An empty registry.
    pub fn new() -> (peers: PeerMap)
        ensures
            peers@ == Map::<Seq<char>, PeerView>::empty(),
    {
        let peers = PeerMap { map: StringHashMap::new() };
        assert(peers@ =~= Map::<Seq<char>, PeerView>::empty());
        peers
    }

    /// Whether `id` is in the registry, so that a request about it can be
    /// answered without the durable store.
    pub fn is_in_memory(&self, id: &str) -> (found: bool)
        ensures
            found == self@.contains_key(id@),
    {
        self.map.contains_key(id)
    }

    /// A copy of the record of `id`, if the registry has one.
    pub fn get(&self, id: &str) -> (peer: Option<Peer>)
        ensures
            view_of(peer) == self@.get(id@),
    {
        match self.map.get(id) {
            Some(p) => Some(p.duplicate()),
            None => None,
        }
    }

    /// Puts `peer` in the registry as the record of `id`, in place of any
    /// record `id` had.
    pub fn insert(&mut self, id: String, peer: Peer)
        ensures
            final(self)@ == old(self)@.insert(id@, peer@),
    {
        self.map.insert(id, peer);
        assert(self@ =~= old(self)@.insert(id@, peer@));
    }

    /// Completes a lookup of `id` that missed the registry with the durable
    /// store's answer: `stored_pk` is the public key of the persisted record,
    /// `None` if the store has no record of `id`.
    ///
    /// Returns what the lookup yields; see [`restore_spec`].
    pub fn restore(&mut self, id: String, stored_pk: Option<Vec<u8>>) -> (peer: Option<Peer>)
        ensures
            (final(self)@, view_of(peer)) == restore_spec(
                old(self)@,
                id@,
                match stored_pk {
                    Some(pk) => Some(pk@),
                    None => None,
                },
            ),
    {
        match stored_pk {
            Some(pk) => {
                self.insert(
                    id,
                    Peer { socket_addr: Endpoint::unspecified(), last_reg_time: None, pk },
                );
                Some(Peer::default())
            },
            None => None,
        }
    }

    /// Writes the record of a peer that has just registered the key `pk`
    /// from `socket_addr` at clock reading `now`, whatever record `id` had,
    /// and returns what the durable store is to keep for `id`.
    pub fn update_pk(&mut self, id: String, socket_addr: Endpoint, pk: Vec<u8>, now: u64) -> (record:
        PersistedPeerRecord)
        ensures
            final(self)@ == old(self)@.insert(id@, PeerView::registered(socket_addr, now, pk@)),
            record@ == PersistedPeerRecordView::of(socket_addr, pk@),
    {
        let record = PersistedPeerRecord { ip: socket_addr.ip, pk: pk.clone() };
        self.insert(id, Peer { socket_addr, last_reg_time: Some(now), pk });
        record
    }

    /// Refreshes the registration of `id`, if the registry has it: the
    /// record takes `socket_addr` and the clock reading `now` and keeps its
    /// key. Returns whether the key is still unset, or `None`, with nothing
    /// changed, for an id that is not in the registry.
    pub fn refresh(
        &mut self,
        id: &str,
        socket_addr: Endpoint,
        now: u64,
    ) -> (request_pk: Option<bool>)
        ensures
            match old(self)@.get(id@) {
                Some(p) => {
                    &&& final(self)@ == old(self)@.insert(
                        id@,
                        PeerView::registered(socket_addr, now, p.pk),
                    )
                    &&& request_pk == Some(p.pk.len() == 0)
                },
                None => final(self)@ == old(self)@ && request_pk is None,
            },
    {
        match self.map.get(id) {
            Some(p) => {
                let pk = p.pk.clone();
                let request_pk = pk.len() == 0;
                self.insert(id.to_owned(), Peer { socket_addr, last_reg_time: Some(now), pk });
                Some(request_pk)
            },
            None => None,
        }
    }

    /// Registers the public key `pk` for `id`, where `peer` is what a lookup
    /// of `id` returned.
    ///
    /// Without a record, or with a record whose key is unset, the key is
    /// written with `socket_addr` and the clock reading `now`, and the
    /// record to persist is returned. With the same key already set nothing
    /// changes and the answer is still `Okay`. With another key set nothing
    /// changes and the answer is `PkMismatch`.
    pub fn register_pk(
        &mut self,
        peer: Option<Peer>,
        id: String,
        socket_addr: Endpoint,
        pk: Vec<u8>,
        now: u64,
    ) -> (outcome: (RegisterPkResult, Option<PersistedPeerRecord>))
        ensures
            outcome.0 == key_result(view_of(peer), pk@),
            final(self)@ == register_pk_spec(old(self)@, view_of(peer), id@, socket_addr, pk@, now),
            match outcome.1 {
                Some(record) => key_is_unset(view_of(peer)) && record@
                    == PersistedPeerRecordView::of(socket_addr, pk@),
                None => !key_is_unset(view_of(peer)),
            },
    {
        match peer {
            Some(peer) => {
                if peer.pk.len() == 0 {
                    let record = self.update_pk(id, socket_addr, pk, now);
                    (RegisterPkResult::Okay, Some(record))
                } else if same_bytes(&peer.pk, &pk) {
                    (RegisterPkResult::Okay, None)
                } else {
                    (RegisterPkResult::PkMismatch, None)
                }
            },
            None => {
                let record = self.update_pk(id, socket_addr, pk, now);
                (RegisterPkResult::Okay, Some(record))
            },
        }
    }
}

} // verus!
