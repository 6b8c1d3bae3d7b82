//! The stream connections that are open and may still carry one forwarded
//! answer, by the endpoint of the peer that opened them.

use crate::endpoint::Endpoint;
use vstd::prelude::*;

verus! {

/// Open stream connections by remote endpoint. `S` is whatever the caller
/// writes to a connection with; it is stored and handed back, never used.
///
/// An endpoint has at most one entry: registering a connection for an
/// endpoint that already has one replaces the older.
pub struct PendingTcpChannels<S> {
    entries: Vec<(Endpoint, S)>,
}

spec fn keyed_at<S>(s: Seq<(Endpoint, S)>, k: Endpoint, i: int) -> bool {
    0 <= i < s.len() && s[i].0 == k
}

spec fn distinct_keys<S>(s: Seq<(Endpoint, S)>) -> bool {
    forall|i: int, j: int| 0 <= i < j < s.len() ==> s[i].0 != s[j].0
}

spec fn as_map<S>(s: Seq<(Endpoint, S)>) -> Map<Endpoint, S> {
    Map::new(
        |k: Endpoint| exists|i: int| keyed_at(s, k, i),
        |k: Endpoint| s[choose|i: int| keyed_at(s, k, i)].1,
    )
}

proof fn lemma_as_map_at<S>(s: Seq<(Endpoint, S)>, i: int)
    requires
        distinct_keys(s),
        0 <= i < s.len(),
    ensures
        as_map(s).contains_key(s[i].0),
        as_map(s)[s[i].0] == s[i].1,
{
    let k = s[i].0;
    assert(keyed_at(s, k, i));
    let j = choose|j: int| keyed_at(s, k, j);
    assert(j == i) by {
        if j < i {
            assert(s[j].0 != s[i].0);
        } else if i < j {
            assert(s[i].0 != s[j].0);
        }
    }
}

proof fn lemma_as_map_push<S>(s: Seq<(Endpoint, S)>, k: Endpoint, v: S)
    requires
        distinct_keys(s),
        !as_map(s).contains_key(k),
    ensures
        distinct_keys(s.push((k, v))),
        as_map(s.push((k, v))) == as_map(s).insert(k, v),
{
    let t = s.push((k, v));
    assert forall|i: int, j: int| 0 <= i < j < t.len() implies t[i].0 != t[j].0 by {
        if j == s.len() {
            assert(!keyed_at(s, k, i));
        }
    }
    assert forall|q: Endpoint| as_map(t).contains_key(q) <==> as_map(s).insert(k, v).contains_key(
        q,
    ) by {
        if as_map(t).contains_key(q) {
            let i = choose|i: int| keyed_at(t, q, i);
            if i < s.len() {
                assert(keyed_at(s, q, i));
            }
        }
        if as_map(s).contains_key(q) {
            let i = choose|i: int| keyed_at(s, q, i);
            assert(keyed_at(t, q, i));
        }
        if q == k {
            assert(keyed_at(t, q, s.len() as int));
        }
    }
    assert forall|q: Endpoint| as_map(t).contains_key(q) implies as_map(t)[q] == as_map(s).insert(
        k,
        v,
    )[q] by {
        let i = choose|i: int| keyed_at(t, q, i);
        lemma_as_map_at(t, i);
        if i < s.len() {
            assert(keyed_at(s, q, i));
            lemma_as_map_at(s, i);
        }
    }
    assert(as_map(t) =~= as_map(s).insert(k, v));
}

proof fn lemma_as_map_swap_remove<S>(s: Seq<(Endpoint, S)>, i: int)
    requires
        distinct_keys(s),
        0 <= i < s.len(),
    ensures
        distinct_keys(s.update(i, s.last()).drop_last()),
        as_map(s.update(i, s.last()).drop_last()) == as_map(s).remove(s[i].0),
{
    let t = s.update(i, s.last()).drop_last();
    let k = s[i].0;
    let last = s.len() - 1;
    // Where the entry at position `j` of `t` stood in `s`.
    let from = |j: int| if j == i { last } else { j };
    assert forall|a: int, b: int| 0 <= a < b < t.len() implies t[a].0 != t[b].0 by {
        let x = from(a);
        let y = from(b);
        assert(t[a] == s[x] && t[b] == s[y]);
        if x < y {
            assert(s[x].0 != s[y].0);
        } else {
            assert(s[y].0 != s[x].0);
        }
    }
    assert forall|q: Endpoint| as_map(t).contains_key(q) <==> as_map(s).remove(k).contains_key(
        q,
    ) by {
        if as_map(t).contains_key(q) {
            let j = choose|j: int| keyed_at(t, q, j);
            let x = from(j);
            assert(t[j] == s[x]);
            assert(keyed_at(s, q, x));
            if x < i {
                assert(s[x].0 != s[i].0);
            } else {
                assert(s[i].0 != s[x].0);
            }
        }
        if as_map(s).contains_key(q) && q != k {
            let x = choose|x: int| keyed_at(s, q, x);
            if x == last {
                assert(keyed_at(t, q, i));
            } else {
                assert(keyed_at(t, q, x));
            }
        }
    }
    assert forall|q: Endpoint| as_map(t).contains_key(q) implies as_map(t)[q] == as_map(s).remove(
        k,
    )[q] by {
        let j = choose|j: int| keyed_at(t, q, j);
        let x = from(j);
        assert(t[j] == s[x]);
        lemma_as_map_at(t, j);
        lemma_as_map_at(s, x);
    }
    assert(as_map(t) =~= as_map(s).remove(k));
}

impl<S> View for PendingTcpChannels<S> {
    type V = Map<Endpoint, S>;

    closed spec fn view(&self) -> Map<Endpoint, S> {
        as_map(self.entries@)
    }
}

impl<S> PendingTcpChannels<S> {
    /// No endpoint is held twice. Every constructor establishes this and
    /// every method keeps it.
    pub closed spec fn wf(&self) -> bool {
        distinct_keys(self.entries@)
    }

    /// No connection.
    pub fn new() -> (channels: Self)
        ensures
            channels.wf(),
            channels@ == Map::<Endpoint, S>::empty(),
    {
        let channels = PendingTcpChannels { entries: Vec::new() };
        assert(channels@ =~= Map::<Endpoint, S>::empty());
        channels
    }

    /// Whether a connection from `addr` is registered.
    pub fn contains(&self, addr: &Endpoint) -> (found: bool)
        ensures
            found == self@.contains_key(*addr),
    {
        let mut i: usize = 0;
        while i < self.entries.len()
            invariant
                i <= self.entries@.len(),
                forall|j: int| 0 <= j < i ==> !keyed_at(self.entries@, *addr, j),
            decreases self.entries@.len() - i,
        {
            if self.entries[i].0 == *addr {
                assert(keyed_at(self.entries@, *addr, i as int));
                return true;
            }
            i += 1;
        }
        false
    }

    /// Takes the connection from `addr` out and returns it, if there is one.
    pub fn remove(&mut self, addr: &Endpoint) -> (sink: Option<S>)
        requires
            old(self).wf(),
        ensures
            final(self).wf(),
            final(self)@ == old(self)@.remove(*addr),
            sink == old(self)@.get(*addr),
    {
        let mut i: usize = 0;
        while i < self.entries.len()
            invariant
                i <= self.entries@.len(),
                self.entries@ == old(self).entries@,
                distinct_keys(self.entries@),
                forall|j: int| 0 <= j < i ==> !keyed_at(self.entries@, *addr, j),
            decreases self.entries@.len() - i,
        {
            if self.entries[i].0 == *addr {
                proof {
                    lemma_as_map_at(self.entries@, i as int);
                    lemma_as_map_swap_remove(self.entries@, i as int);
                }
                let entry = self.entries.swap_remove(i);
                return Some(entry.1);
            }
            i += 1;
        }
        assert(self@ =~= old(self)@.remove(*addr));
        None
    }

    /// Registers the connection from `addr`, in place of an older one from
    /// the same endpoint.
    pub fn insert(&mut self, addr: Endpoint, sink: S)
        requires
            old(self).wf(),
        ensures
            final(self).wf(),
            final(self)@ == old(self)@.insert(addr, sink),
    {
        let _ = self.remove(&addr);
        proof {
            lemma_as_map_push(self.entries@, addr, sink);
            assert(old(self)@.remove(addr).insert(addr, sink) =~= old(self)@.insert(addr, sink));
        }
        self.entries.push((addr, sink));
    }
}

} // verus!
