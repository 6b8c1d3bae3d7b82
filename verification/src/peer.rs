//! The record the registry keeps of one peer, and what of it is persisted.

use crate::endpoint::{Endpoint, IpAddress};
use vstd::prelude::*;

verus! {

/// Milliseconds after which a registration that was not refreshed counts as
/// gone.
pub const REG_TIMEOUT: u64 = 30_000;

/// What the registry knows of one peer.
///
/// `last_reg_time` is the reading of the caller's monotonic millisecond clock
/// at the last refresh; `None` says that the peer has not been heard from
/// since the process started, which is older than any reading. An empty `pk`
/// means that no public key is set.
#[derive(Clone, Debug, PartialEq, Eq)]
pub struct Peer {
    pub socket_addr: Endpoint,
    pub last_reg_time: Option<u64>,
    pub pk: Vec<u8>,
}

/// The mathematical value of a [`Peer`].
pub struct PeerView {
    pub socket_addr: Endpoint,
    pub last_reg_time: Option<u64>,
    pub pk: Seq<u8>,
}

impl View for Peer {
    type V = PeerView;

    open spec fn view(&self) -> PeerView {
        PeerView { socket_addr: self.socket_addr, last_reg_time: self.last_reg_time, pk: self.pk@ }
    }
}

/// The value of a peer that may be absent.
pub open spec fn view_of(peer: Option<Peer>) -> Option<PeerView> {
    match peer {
        Some(p) => Some(p@),
        None => None,
    }
}

impl PeerView {
    /// The record of a peer that registered from `socket_addr` at clock
    /// reading `now` and has the public key `pk`.
    pub open spec fn registered(socket_addr: Endpoint, now: u64, pk: Seq<u8>) -> PeerView {
        PeerView { socket_addr, last_reg_time: Some(now), pk }
    }

    /// The record made of a persisted public key alone: no address, never
    /// heard from.
    pub open spec fn restored(pk: Seq<u8>) -> PeerView {
        PeerView { socket_addr: Endpoint::unspecified_spec(), last_reg_time: None, pk }
    }

    /// The record that stands in for a peer of which only the persisted part
    /// is known: no address, never heard from, no key.
    pub open spec fn placeholder() -> PeerView {
        PeerView { socket_addr: Endpoint::unspecified_spec(), last_reg_time: None, pk: Seq::empty() }
    }

    /// Whether the registration is too old at clock reading `now` to count
    /// as alive: never refreshed, or refreshed `REG_TIMEOUT` or more
    /// milliseconds ago.
    pub open spec fn is_stale(self, now: u64) -> bool {
        match self.last_reg_time {
            None => true,
            Some(t) => now - t >= REG_TIMEOUT,
        }
    }
}

impl Default for Peer {
    /// The placeholder record.
    fn default() -> (p: Peer)
        ensures
            p@ == PeerView::placeholder(),
    {
        Peer { socket_addr: Endpoint::unspecified(), last_reg_time: None, pk: Vec::new() }
    }
}

impl Peer {
    /// Whether the registration is stale at clock reading `now`.
    pub fn is_stale(&self, now: u64) -> (stale: bool)
        ensures
            stale == self@.is_stale(now),
    {
        match self.last_reg_time {
            None => true,
            Some(t) => now >= t && now - t >= REG_TIMEOUT,
        }
    }

    /// A copy of the record.
    pub fn duplicate(&self) -> (p: Peer)
        ensures
            p@ == self@,
    {
        Peer { socket_addr: self.socket_addr, last_reg_time: self.last_reg_time, pk: self.pk.clone() }
    }
}

/// The part of a peer that outlives the process: the address it registered
/// its key from, and the key. Port and freshness mean nothing after a
/// restart and are not kept.
#[derive(Clone, Debug, PartialEq, Eq)]
pub struct PersistedPeerRecord {
    pub ip: IpAddress,
    pub pk: Vec<u8>,
}

/// The mathematical value of a [`PersistedPeerRecord`].
pub struct PersistedPeerRecordView {
    pub ip: IpAddress,
    pub pk: Seq<u8>,
}

impl PersistedPeerRecordView {
    /// What is persisted of a peer that registered the key `pk` from
    /// `socket_addr`.
    pub open spec fn of(socket_addr: Endpoint, pk: Seq<u8>) -> PersistedPeerRecordView {
        PersistedPeerRecordView { ip: socket_addr.ip, pk }
    }
}

impl View for PersistedPeerRecord {
    type V = PersistedPeerRecordView;

    open spec fn view(&self) -> PersistedPeerRecordView {
        PersistedPeerRecordView { ip: self.ip, pk: self.pk@ }
    }
}

} // verus!
