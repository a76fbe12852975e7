//! The identity directory: which peer identities currently have at least
//! one live overlay connection.
//!
//! The directory maps each peer to the set of its live connection
//! identifiers; a peer is reachable iff that set is non-empty. It is held
//! as a flat sequence of registrations ordered by establishment time, so
//! the most recently established connection of a peer is the last matching
//! entry. A connection is never registered twice, and unregistering an
//! absent connection is a no-op.

use vstd::prelude::*;
use crate::identity::{ConnectionId, PeerIdentity};

verus! {

/// One live association of a peer identity with an overlay connection.
#[derive(Clone, Copy, Debug, PartialEq, Eq, Structural)]
pub struct Registration {
    pub peer: PeerIdentity,
    pub connection: ConnectionId,
}

/// True iff `r` registers connection `c` of peer `p`.
pub open spec fn reg_matches(r: Registration, p: PeerIdentity, c: ConnectionId) -> bool {
    r.peer == p && r.connection == c
}

/// True iff connection `c` of peer `p` stands registered in `s`.
pub open spec fn reg_in(s: Seq<Registration>, p: PeerIdentity, c: ConnectionId) -> bool {
    exists|i: int| 0 <= i < s.len() && reg_matches(s[i], p, c)
}

/// True iff peer `p` has at least one live connection in `s`.
pub open spec fn reachable_in(s: Seq<Registration>, p: PeerIdentity) -> bool {
    exists|i: int| 0 <= i < s.len() && s[i].peer == p
}

/// How many live connections peer `p` has in `s`.
pub open spec fn count_in(s: Seq<Registration>, p: PeerIdentity) -> nat
    decreases s.len(),
{
    if s.len() == 0 {
        0
    } else {
        count_in(s.drop_last(), p) + if s.last().peer == p { 1nat } else { 0nat }
    }
}

/// The most recently established live connection of peer `p` in `s`.
pub open spec fn last_conn_of(s: Seq<Registration>, p: PeerIdentity) -> ConnectionId
    decreases s.len(),
{
    if s.len() == 0 {
        ConnectionId { id: 0 }
    } else if s.last().peer == p {
        s.last().connection
    } else {
        last_conn_of(s.drop_last(), p)
    }
}

/// No connection of a peer stands registered twice.
pub open spec fn dir_wf(s: Seq<Registration>) -> bool {
    forall|i: int, j: int|
        0 <= i < j < s.len() ==> !(#[trigger] s[i].peer == #[trigger] s[j].peer
            && s[i].connection == s[j].connection)
}

/// Tracks which peers currently have live overlay connections, and through
/// which connections.
#[derive(Debug)]
pub struct IdentityDirectory {
    entries: Vec<Registration>,
}

impl View for IdentityDirectory {
    type V = Seq<Registration>;

    closed spec fn view(&self) -> Seq<Registration> {
        self.entries@
    }
}

impl IdentityDirectory {
    /// An empty directory: no peer is reachable.
    pub fn new() -> (d: IdentityDirectory)
        ensures
            d@ =~= Seq::<Registration>::empty(),
    {
        IdentityDirectory { entries: Vec::new() }
    }

    /// Records connection `c` of peer `p` as live. Registering a connection
    /// that is already present leaves the directory unchanged, so no
    /// connection is ever registered twice.
    pub fn register(&mut self, p: PeerIdentity, c: ConnectionId)
        ensures
            final(self)@ == if reg_in(old(self)@, p, c) {
                old(self)@
            } else {
                old(self)@.push(Registration { peer: p, connection: c })
            },
            dir_wf(old(self)@) ==> dir_wf(final(self)@),
    {
        let n = self.entries.len();
        let mut i: usize = 0;
        while i < n
            invariant
                n == self.entries.len(),
                0 <= i <= n,
                forall|k: int| 0 <= k < i ==> !reg_matches(self.entries@[k], p, c),
            decreases n - i,
        {
            let r = self.entries[i];
            if r.peer.id == p.id && r.connection.id == c.id {
                assert(reg_matches(self.entries@[i as int], p, c));
                return;
            }
            i = i + 1;
        }
        assert(!reg_in(self@, p, c));
        self.entries.push(Registration { peer: p, connection: c });
    }

    /// Forgets connection `c` of peer `p`. Idempotent: removing a
    /// connection that was never registered (or was already removed) is a
    /// no-op, not an error.
    pub fn unregister(&mut self, p: PeerIdentity, c: ConnectionId)
        ensures
            !reg_in(old(self)@, p, c) ==> final(self)@ == old(self)@,
            reg_in(old(self)@, p, c) ==> exists|i: int|
                0 <= i < old(self)@.len() && reg_matches(#[trigger] old(self)@[i], p, c)
                    && final(self)@ == old(self)@.remove(i),
            dir_wf(old(self)@) ==> dir_wf(final(self)@),
    {
        let n = self.entries.len();
        let mut i: usize = 0;
        while i < n
            invariant
                n == self.entries.len(),
                self@ == old(self)@,
                0 <= i <= n,
                forall|k: int| 0 <= k < i ==> !reg_matches(self.entries@[k], p, c),
            decreases n - i,
        {
            let r = self.entries[i];
            if r.peer.id == p.id && r.connection.id == c.id {
                assert(reg_matches(self.entries@[i as int], p, c));
                let ghost pre = self@;
                self.entries.remove(i);
                assert(self@ == pre.remove(i as int));
                proof {
                    if dir_wf(pre) {
                        lemma_dir_wf_remove(pre, i as int);
                    }
                }
                return;
            }
            i = i + 1;
        }
        assert(!reg_in(self@, p, c));
    }

    /// True iff peer `p` has at least one live connection.
    pub fn is_reachable(&self, p: PeerIdentity) -> (r: bool)
        ensures
            r == reachable_in(self@, p),
    {
        let n = self.entries.len();
        let mut i: usize = 0;
        while i < n
            invariant
                n == self.entries.len(),
                0 <= i <= n,
                forall|k: int| 0 <= k < i ==> self.entries@[k].peer != p,
            decreases n - i,
        {
            let r = self.entries[i];
            if r.peer.id == p.id {
                assert(self.entries@[i as int].peer == p);
                return true;
            }
            i = i + 1;
        }
        false
    }

    /// How many live connections peer `p` currently has.
    pub fn connection_count_for(&self, p: PeerIdentity) -> (r: usize)
        ensures
            r == count_in(self@, p),
    {
        let n = self.entries.len();
        let mut i: usize = 0;
        let mut count: usize = 0;
        while i < n
            invariant
                n == self.entries.len(),
                0 <= i <= n,
                count == count_in(self.entries@.take(i as int), p),
                count <= i,
            decreases n - i,
        {
            assert(self.entries@.take(i + 1).drop_last() =~= self.entries@.take(i as int));
            let r = self.entries[i];
            if r.peer.id == p.id {
                count = count + 1;
            }
            i = i + 1;
        }
        assert(self.entries@.take(n as int) =~= self.entries@);
        count
    }

    /// The most recently established live connection of peer `p`: the
    /// tie-break rule when a relay target has several connections.
    pub fn most_recent_connection_for(&self, p: PeerIdentity) -> (r: Option<ConnectionId>)
        ensures
            r is Some <==> reachable_in(self@, p),
            r is Some ==> r->0 == last_conn_of(self@, p) && reg_in(self@, p, r->0),
    {
        let n = self.entries.len();
        let mut i: usize = n;
        assert(self.entries@.take(n as int) =~= self.entries@);
        while i > 0
            invariant
                n == self.entries.len(),
                0 <= i <= n,
                forall|k: int| i <= k < n ==> self.entries@[k].peer != p,
                last_conn_of(self.entries@, p) == last_conn_of(self.entries@.take(i as int), p),
                reachable_in(self.entries@, p) == reachable_in(self.entries@.take(i as int), p),
            decreases i,
        {
            let r = self.entries[i - 1];
            let ghost pre = self.entries@.take(i as int);
            assert(pre.last() == self.entries@[i - 1]);
            assert(pre.drop_last() =~= self.entries@.take(i - 1));
            if r.peer.id == p.id {
                assert(self.entries@[i - 1].peer == p);
                assert(last_conn_of(pre, p) == r.connection);
                assert(reg_matches(self.entries@[i - 1], p, r.connection));
                return Some(r.connection);
            }
            i = i - 1;
        }
        assert(self.entries@.take(0) =~= Seq::<Registration>::empty());
        assert(!reachable_in(self@, p));
        None
    }
}

/// Reachability reflects the connection count, not peer presence alone: a
/// peer is reachable exactly while it has more than zero live connections.
pub proof fn lemma_reachable_iff_count(s: Seq<Registration>, p: PeerIdentity)
    ensures
        reachable_in(s, p) <==> count_in(s, p) > 0,
    decreases s.len(),
{
    if s.len() == 0 {
    } else {
        lemma_reachable_iff_count(s.drop_last(), p);
        if s.last().peer == p {
            assert(s[s.len() - 1].peer == p);
        } else {
            if reachable_in(s, p) {
                let i = choose|i: int| 0 <= i < s.len() && s[i].peer == p;
                assert(s.drop_last()[i] == s[i]);
            }
            if reachable_in(s.drop_last(), p) {
                let i = choose|i: int| 0 <= i < s.drop_last().len() && s.drop_last()[i].peer == p;
                assert(s[i] == s.drop_last()[i]);
            }
        }
    }
}

/// Removing one registration lowers the owning peer's connection count by
/// one and leaves every other peer's count alone.
pub proof fn lemma_count_remove(s: Seq<Registration>, i: int, p: PeerIdentity)
    requires
        0 <= i < s.len(),
    ensures
        count_in(s.remove(i), p) == count_in(s, p) - (if s[i].peer == p { 1int } else { 0int }),
    decreases s.len(),
{
    if i == s.len() - 1 {
        assert(s.remove(i) =~= s.drop_last());
    } else {
        let t = s.remove(i);
        assert(t.len() == s.len() - 1);
        assert(t.last() == s.last());
        assert(t.drop_last() =~= s.drop_last().remove(i));
        lemma_count_remove(s.drop_last(), i, p);
    }
}

/// Registering one connection raises the owning peer's connection count by
/// one and leaves every other peer's count alone.
pub proof fn lemma_count_push(s: Seq<Registration>, r: Registration, p: PeerIdentity)
    ensures
        count_in(s.push(r), p) == count_in(s, p) + (if r.peer == p { 1int } else { 0int }),
{
    assert(s.push(r).drop_last() =~= s);
    assert(s.push(r).last() == r);
}

/// Removing an entry keeps the directory free of duplicates.
proof fn lemma_dir_wf_remove(s: Seq<Registration>, i: int)
    requires
        0 <= i < s.len(),
        dir_wf(s),
    ensures
        dir_wf(s.remove(i)),
{
    let t = s.remove(i);
    assert forall|a: int, b: int|
        0 <= a < b < t.len() implies !(#[trigger] t[a].peer == #[trigger] t[b].peer
            && t[a].connection == t[b].connection) by {
        let a0 = if a < i { a } else { a + 1 };
        let b0 = if b < i { b } else { b + 1 };
        assert(t[a] == s[a0]);
        assert(t[b] == s[b0]);
    }
}

} // verus!
