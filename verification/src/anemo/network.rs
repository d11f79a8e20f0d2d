//! Which connection to keep when two peers dial each other, and the table of
//! connections of a network, one per remote peer.
use vstd::prelude::*;

use crate::anemo::common::{ConnectionOrigin, PeerId};

verus! {

/// Whether, when two connections to the same peer exist, the existing one is
/// the one to drop (`true`) or the new one (`false`).
///
/// The rule keeps the connection dialed by the peer with the greater id; when
/// both connections have the same origin, the newer one is kept.
pub open spec fn drop_existing(
    own_peer_id: PeerId,
    remote_peer_id: PeerId,
    existing_origin: ConnectionOrigin,
    new_origin: ConnectionOrigin,
) -> bool {
    match (existing_origin, new_origin) {
        (ConnectionOrigin::Inbound, ConnectionOrigin::Inbound) => true,
        (ConnectionOrigin::Outbound, ConnectionOrigin::Outbound) => true,
        (ConnectionOrigin::Inbound, ConnectionOrigin::Outbound) => remote_peer_id.spec_lt(own_peer_id),
        (ConnectionOrigin::Outbound, ConnectionOrigin::Inbound) => own_peer_id.spec_lt(remote_peer_id),
    }
}

/// In the event two peers simultaneously dial each other, decides in a
/// deterministic way which connection to keep: returns `true` if the existing
/// connection should be dropped and `false` if the new connection should be
/// dropped.
pub fn simultaneous_dial_tie_breaking(
    own_peer_id: PeerId,
    remote_peer_id: PeerId,
    existing_origin: ConnectionOrigin,
    new_origin: ConnectionOrigin,
) -> (r: bool)
    ensures
        r == drop_existing(own_peer_id, remote_peer_id, existing_origin, new_origin),
{
    match (existing_origin, new_origin) {
        (ConnectionOrigin::Inbound, ConnectionOrigin::Inbound) => true,
        (ConnectionOrigin::Outbound, ConnectionOrigin::Outbound) => true,
        (ConnectionOrigin::Inbound, ConnectionOrigin::Outbound) => remote_peer_id.less_than(&own_peer_id),
        (ConnectionOrigin::Outbound, ConnectionOrigin::Inbound) => own_peer_id.less_than(&remote_peer_id),
    }
}

/// The peer that dialed a connection, seen from `own_peer_id`'s side.
pub open spec fn dialer(own_peer_id: PeerId, remote_peer_id: PeerId, origin: ConnectionOrigin) -> PeerId {
    match origin {
        ConnectionOrigin::Outbound => own_peer_id,
        ConnectionOrigin::Inbound => remote_peer_id,
    }
}

/// The origin of the connection that survives the tie-breaking.
pub open spec fn kept_origin(
    own_peer_id: PeerId,
    remote_peer_id: PeerId,
    existing_origin: ConnectionOrigin,
    new_origin: ConnectionOrigin,
) -> ConnectionOrigin {
    if drop_existing(own_peer_id, remote_peer_id, existing_origin, new_origin) {
        new_origin
    } else {
        existing_origin
    }
}

/// When a peer holds one connection it dialed and one it accepted from the
/// same remote peer, the connection that is kept is the one dialed by the peer
/// with the greater id, whichever of the two arrived first.
pub proof fn lemma_tie_break_keeps_greater_dialer(
    own_peer_id: PeerId,
    remote_peer_id: PeerId,
    existing_origin: ConnectionOrigin,
    new_origin: ConnectionOrigin,
)
    requires
        own_peer_id != remote_peer_id,
        existing_origin != new_origin,
    ensures
        ({
            let kept = kept_origin(own_peer_id, remote_peer_id, existing_origin, new_origin);
            let winner = dialer(own_peer_id, remote_peer_id, kept);
            &&& remote_peer_id.spec_lt(own_peer_id) ==> winner == own_peer_id
            &&& own_peer_id.spec_lt(remote_peer_id) ==> winner == remote_peer_id
        }),
{
    if remote_peer_id.spec_lt(own_peer_id) {
        crate::anemo::common::lemma_bytes_lt_asymmetric(remote_peer_id.key(), own_peer_id.key());
    }
    if own_peer_id.spec_lt(remote_peer_id) {
        crate::anemo::common::lemma_bytes_lt_asymmetric(own_peer_id.key(), remote_peer_id.key());
    }
}

/// The origin of the same connection seen from the other end.
pub open spec fn flip(origin: ConnectionOrigin) -> ConnectionOrigin {
    match origin {
        ConnectionOrigin::Inbound => ConnectionOrigin::Outbound,
        ConnectionOrigin::Outbound => ConnectionOrigin::Inbound,
    }
}

/// Two distinct peers that dial each other at the same time end up keeping the
/// same connection, in whatever order each of them saw the two connections
/// complete: the connection `a` keeps is, seen from `b`, the one `b` keeps.
pub proof fn lemma_simultaneous_dial_agreement(
    a: PeerId,
    b: PeerId,
    a_existing: ConnectionOrigin,
    b_existing: ConnectionOrigin,
)
    requires
        a != b,
    ensures
        kept_origin(b, a, b_existing, flip(b_existing))
            == flip(kept_origin(a, b, a_existing, flip(a_existing))),
{
    assert(a.key() != b.key()) by {
        if a.key() == b.key() {
            assert(a.0 =~= b.0);
        }
    }
    crate::anemo::common::lemma_bytes_lt_total(a.key(), b.key());
    lemma_tie_break_keeps_greater_dialer(a, b, a_existing, flip(a_existing));
    lemma_tie_break_keeps_greater_dialer(b, a, b_existing, flip(b_existing));
}

} // verus!

verus! {

/// What the bookkeeping knows of a live connection: how it was established and
/// the stable identifier of the underlying transport connection.
#[derive(Clone, Copy, Debug, PartialEq, Eq, Structural)]
pub struct ConnectionInfo {
    pub origin: ConnectionOrigin,
    pub stable_id: usize,
}

/// What happened to a connection offered to [`ConnectionTable::add_peer`].
#[derive(Clone, Copy, Debug, PartialEq, Eq, Structural)]
pub enum AddPeerOutcome {
    /// No connection to the peer existed; the new one was recorded.
    Added,
    /// The existing connection (carried here) was dropped for the new one; it must be closed.
    Replaced(ConnectionInfo),
    /// The new connection lost the tie-break and must be closed; the table is unchanged.
    Rejected,
}

/// The effect of offering a connection to `peer` to a table whose contents are `table`.
pub open spec fn add_peer_result(
    own_peer_id: PeerId,
    table: Map<PeerId, ConnectionInfo>,
    peer: PeerId,
    info: ConnectionInfo,
) -> (Map<PeerId, ConnectionInfo>, AddPeerOutcome) {
    if !table.contains_key(peer) {
        (table.insert(peer, info), AddPeerOutcome::Added)
    } else if drop_existing(own_peer_id, peer, table[peer].origin, info.origin) {
        (table.insert(peer, info), AddPeerOutcome::Replaced(table[peer]))
    } else {
        (table, AddPeerOutcome::Rejected)
    }
}

/// The connections of a network, one per remote peer.
pub struct ConnectionTable {
    own_peer_id: PeerId,
    entries: Vec<(PeerId, ConnectionInfo)>,
}

/// No peer occurs twice in `s`.
pub open spec fn unique_peers(s: Seq<(PeerId, ConnectionInfo)>) -> bool {
    forall|i: int, j: int| 0 <= i < s.len() && 0 <= j < s.len() && s[i].0 == s[j].0 ==> i == j
}

/// The map from peer to connection described by a list of entries.
pub open spec fn entries_map(s: Seq<(PeerId, ConnectionInfo)>) -> Map<PeerId, ConnectionInfo> {
    Map::new(
        |p: PeerId| exists|i: int| 0 <= i < s.len() && s[i].0 == p,
        |p: PeerId| s[choose|i: int| 0 <= i < s.len() && s[i].0 == p].1,
    )
}

proof fn lemma_entries_map_at(s: Seq<(PeerId, ConnectionInfo)>, i: int)
    requires
        unique_peers(s),
        0 <= i < s.len(),
    ensures
        entries_map(s).contains_key(s[i].0),
        entries_map(s)[s[i].0] == s[i].1,
{
    let p = s[i].0;
    assert(exists|k: int| 0 <= k < s.len() && s[k].0 == p);
    let j = choose|k: int| 0 <= k < s.len() && s[k].0 == p;
    assert(j == i);
}

proof fn lemma_entries_map_update(s: Seq<(PeerId, ConnectionInfo)>, i: int, info: ConnectionInfo)
    requires
        unique_peers(s),
        0 <= i < s.len(),
    ensures
        unique_peers(s.update(i, (s[i].0, info))),
        entries_map(s.update(i, (s[i].0, info))) == entries_map(s).insert(s[i].0, info),
{
    let t = s.update(i, (s[i].0, info));
    let p = s[i].0;
    assert forall|q: PeerId| #[trigger] entries_map(t).contains_key(q) <==> entries_map(s).insert(p, info).contains_key(q) by {
        if entries_map(t).contains_key(q) {
            let k = choose|k: int| 0 <= k < t.len() && t[k].0 == q;
            assert(s[k].0 == q);
        }
        if entries_map(s).contains_key(q) {
            let k = choose|k: int| 0 <= k < s.len() && s[k].0 == q;
            assert(t[k].0 == q);
        }
        if q == p {
            assert(t[i].0 == q);
        }
    }
    assert forall|q: PeerId| #[trigger] entries_map(t).contains_key(q) implies entries_map(t)[q] == entries_map(s).insert(p, info)[q] by {
        let k = choose|k: int| 0 <= k < t.len() && t[k].0 == q;
        lemma_entries_map_at(t, k);
        if k != i {
            lemma_entries_map_at(s, k);
        }
    }
    assert(entries_map(t) =~= entries_map(s).insert(p, info));
}

proof fn lemma_entries_map_push(s: Seq<(PeerId, ConnectionInfo)>, peer: PeerId, info: ConnectionInfo)
    requires
        unique_peers(s),
        !entries_map(s).contains_key(peer),
    ensures
        unique_peers(s.push((peer, info))),
        entries_map(s.push((peer, info))) == entries_map(s).insert(peer, info),
{
    let t = s.push((peer, info));
    assert forall|i: int, j: int| 0 <= i < t.len() && 0 <= j < t.len() && t[i].0 == t[j].0 implies i == j by {
        if i < s.len() && j == s.len() {
            assert(s[i].0 == peer);
        }
        if j < s.len() && i == s.len() {
            assert(s[j].0 == peer);
        }
    }
    assert forall|q: PeerId| #[trigger] entries_map(t).contains_key(q) <==> entries_map(s).insert(peer, info).contains_key(q) by {
        if entries_map(t).contains_key(q) {
            let k = choose|k: int| 0 <= k < t.len() && t[k].0 == q;
            if k < s.len() {
                assert(s[k].0 == q);
            }
        }
        if entries_map(s).contains_key(q) {
            let k = choose|k: int| 0 <= k < s.len() && s[k].0 == q;
            assert(t[k].0 == q);
        }
        if q == peer {
            assert(t[s.len() as int].0 == q);
        }
    }
    assert forall|q: PeerId| #[trigger] entries_map(t).contains_key(q) implies entries_map(t)[q] == entries_map(s).insert(peer, info)[q] by {
        let k = choose|k: int| 0 <= k < t.len() && t[k].0 == q;
        lemma_entries_map_at(t, k);
        if k < s.len() {
            assert(s[k] == t[k]);
            lemma_entries_map_at(s, k);
        }
    }
    assert(entries_map(t) =~= entries_map(s).insert(peer, info));
}

proof fn lemma_entries_map_remove(s: Seq<(PeerId, ConnectionInfo)>, i: int)
    requires
        unique_peers(s),
        0 <= i < s.len(),
    ensures
        unique_peers(s.remove(i)),
        entries_map(s.remove(i)) == entries_map(s).remove(s[i].0),
{
    let t = s.remove(i);
    let p = s[i].0;
    assert forall|a: int, b: int| 0 <= a < t.len() && 0 <= b < t.len() && t[a].0 == t[b].0 implies a == b by {
        let sa = if a < i { a } else { a + 1 };
        let sb = if b < i { b } else { b + 1 };
        assert(t[a] == s[sa]);
        assert(t[b] == s[sb]);
    }
    assert forall|q: PeerId| #[trigger] entries_map(t).contains_key(q) <==> entries_map(s).remove(p).contains_key(q) by {
        if entries_map(t).contains_key(q) {
            let k = choose|k: int| 0 <= k < t.len() && t[k].0 == q;
            let sk = if k < i { k } else { k + 1 };
            assert(s[sk].0 == q);
            assert(sk != i);
        }
        if entries_map(s).contains_key(q) && q != p {
            let k = choose|k: int| 0 <= k < s.len() && s[k].0 == q;
            assert(k != i);
            let tk = if k < i { k } else { k - 1 };
            assert(t[tk].0 == q);
        }
    }
    assert forall|q: PeerId| #[trigger] entries_map(t).contains_key(q) implies entries_map(t)[q] == entries_map(s).remove(p)[q] by {
        let k = choose|k: int| 0 <= k < t.len() && t[k].0 == q;
        let sk = if k < i { k } else { k + 1 };
        assert(t[k] == s[sk]);
        lemma_entries_map_at(t, k);
        lemma_entries_map_at(s, sk);
    }
    assert(entries_map(t) =~= entries_map(s).remove(p));
}

impl View for ConnectionTable {
    type V = Map<PeerId, ConnectionInfo>;

    closed spec fn view(&self) -> Map<PeerId, ConnectionInfo> {
        entries_map(self.entries@)
    }
}

impl ConnectionTable {
    #[verifier::type_invariant]
    closed spec fn inv(self) -> bool {
        unique_peers(self.entries@)
    }

    /// The id of the local peer that owns this table.
    pub closed spec fn own_id(self) -> PeerId {
        self.own_peer_id
    }

    /// An empty table for the local peer `own_peer_id`.
    pub fn new(own_peer_id: PeerId) -> (t: Self)
        ensures
            t@ == Map::<PeerId, ConnectionInfo>::empty(),
            t.own_id() == own_peer_id,
    {
        let t = ConnectionTable { own_peer_id, entries: Vec::new() };
        assert(t@ =~= Map::<PeerId, ConnectionInfo>::empty());
        t
    }

    /// The id of the local peer.
    pub fn peer_id(&self) -> (p: PeerId)
        ensures
            p == self.own_id(),
    {
        self.own_peer_id
    }

    fn find(&self, peer: &PeerId) -> (r: Option<usize>)
        ensures
            match r {
                Some(i) => i < self.entries@.len() && self.entries@[i as int].0 == *peer,
                None => !self@.contains_key(*peer),
            },
    {
        let mut i: usize = 0;
        while i < self.entries.len()
            invariant
                i <= self.entries@.len(),
                forall|j: int| 0 <= j < i ==> self.entries@[j].0 != *peer,
            decreases self.entries@.len() - i,
        {
            if self.entries[i].0.same_as(peer) {
                return Some(i);
            }
            i = i + 1;
        }
        None
    }

    /// The peers that currently have a connection.
    pub fn peers(&self) -> (r: Vec<PeerId>)
        ensures
            r@.no_duplicates(),
            forall|p: PeerId| r@.contains(p) <==> self@.contains_key(p),
    {
        proof {
            use_type_invariant(self);
        }
        let mut r: Vec<PeerId> = Vec::new();
        let mut i: usize = 0;
        while i < self.entries.len()
            invariant
                i <= self.entries@.len(),
                unique_peers(self.entries@),
                r@.len() == i,
                forall|j: int| 0 <= j < i ==> #[trigger] r@[j] == self.entries@[j].0,
            decreases self.entries@.len() - i,
        {
            r.push(self.entries[i].0);
            i = i + 1;
        }
        proof {
            assert forall|p: PeerId| r@.contains(p) <==> self@.contains_key(p) by {
                if r@.contains(p) {
                    let j = choose|j: int| 0 <= j < r@.len() && r@[j] == p;
                    assert(self.entries@[j].0 == p);
                }
                if self@.contains_key(p) {
                    let j = choose|j: int| 0 <= j < self.entries@.len() && self.entries@[j].0 == p;
                    assert(r@[j] == p);
                }
            }
        }
        r
    }

    /// The connection recorded for `peer`, if any.
    pub fn get(&self, peer: &PeerId) -> (r: Option<ConnectionInfo>)
        ensures
            match r {
                Some(info) => self@.contains_key(*peer) && self@[*peer] == info,
                None => !self@.contains_key(*peer),
            },
    {
        proof {
            use_type_invariant(self);
        }
        match self.find(peer) {
            Some(i) => {
                proof {
                    lemma_entries_map_at(self.entries@, i as int);
                }
                Some(self.entries[i].1)
            },
            None => None,
        }
    }

    /// The connection to use for a request to `peer`, who must be connected.
    pub fn connection(&self, peer: &PeerId) -> (info: ConnectionInfo)
        requires
            self@.contains_key(*peer),
        ensures
            info == self@[*peer],
    {
        match self.get(peer) {
            Some(info) => info,
            None => {
                assert(false);
                ConnectionInfo { origin: ConnectionOrigin::Inbound, stable_id: 0 }
            },
        }
    }

    /// Forgets the connection to `peer` and hands it back, so that it can be closed.
    pub fn disconnect(&mut self, peer: &PeerId) -> (r: Option<ConnectionInfo>)
        ensures
            final(self)@ == old(self)@.remove(*peer),
            final(self).own_id() == old(self).own_id(),
            match r {
                Some(info) => old(self)@.contains_key(*peer) && old(self)@[*peer] == info,
                None => !old(self)@.contains_key(*peer),
            },
    {
        proof {
            use_type_invariant(&*self);
        }
        match self.find(peer) {
            Some(i) => {
                proof {
                    lemma_entries_map_at(self.entries@, i as int);
                    lemma_entries_map_remove(self.entries@, i as int);
                }
                let mut entries: Vec<(PeerId, ConnectionInfo)> = Vec::new();
                std::mem::swap(&mut entries, &mut self.entries);
                let (_, info) = entries.remove(i);
                self.entries = entries;
                Some(info)
            },
            None => {
                assert(self@ =~= self@.remove(*peer));
                None
            },
        }
    }

    /// Records a newly established connection to `peer`. When a connection to
    /// that peer already exists, the tie-breaking rule decides which of the two
    /// is kept; the outcome tells the caller which connection to close.
    pub fn add_peer(&mut self, peer: PeerId, info: ConnectionInfo) -> (outcome: AddPeerOutcome)
        ensures
            (final(self)@, outcome) == add_peer_result(old(self).own_id(), old(self)@, peer, info),
            final(self).own_id() == old(self).own_id(),
    {
        proof {
            use_type_invariant(&*self);
        }
        match self.find(&peer) {
            Some(i) => {
                proof {
                    lemma_entries_map_at(self.entries@, i as int);
                }
                let existing = self.entries[i].1;
                if simultaneous_dial_tie_breaking(self.own_peer_id, peer, existing.origin, info.origin) {
                    proof {
                        lemma_entries_map_update(self.entries@, i as int, info);
                    }
                    let mut entries: Vec<(PeerId, ConnectionInfo)> = Vec::new();
                    std::mem::swap(&mut entries, &mut self.entries);
                    entries.set(i, (peer, info));
                    self.entries = entries;
                    AddPeerOutcome::Replaced(existing)
                } else {
                    AddPeerOutcome::Rejected
                }
            },
            None => {
                proof {
                    lemma_entries_map_push(self.entries@, peer, info);
                }
                let mut entries: Vec<(PeerId, ConnectionInfo)> = Vec::new();
                std::mem::swap(&mut entries, &mut self.entries);
                entries.push((peer, info));
                self.entries = entries;
                AddPeerOutcome::Added
            },
        }
    }
}

} // verus!

verus! {

/// Offering a connection to a peer always leaves that peer connected, and
/// never touches the connections to other peers.
pub proof fn lemma_add_peer_connects(
    own_peer_id: PeerId,
    table: Map<PeerId, ConnectionInfo>,
    peer: PeerId,
    info: ConnectionInfo,
)
    ensures
        ({
            let after = add_peer_result(own_peer_id, table, peer, info).0;
            &&& after.contains_key(peer)
            &&& forall|q: PeerId| q != peer ==> (after.contains_key(q) == table.contains_key(q))
            &&& forall|q: PeerId| q != peer && table.contains_key(q) ==> after[q] == table[q]
        }),
{
}

/// When a connection to the peer already exists, the one left in the table is
/// the one the tie-breaking rule keeps, and the outcome names the connection to close.
pub proof fn lemma_add_peer_keeps_tie_break_winner(
    own_peer_id: PeerId,
    table: Map<PeerId, ConnectionInfo>,
    peer: PeerId,
    info: ConnectionInfo,
)
    requires
        table.contains_key(peer),
    ensures
        ({
            let (after, outcome) = add_peer_result(own_peer_id, table, peer, info);
            &&& after[peer].origin == kept_origin(own_peer_id, peer, table[peer].origin, info.origin)
            &&& outcome == AddPeerOutcome::Replaced(table[peer]) || (outcome == AddPeerOutcome::Rejected
                && after[peer] == table[peer])
        }),
{
}

/// Disconnecting a peer right after offering it a connection leaves the other
/// peers as they were before the offer.
pub proof fn lemma_add_then_disconnect(
    own_peer_id: PeerId,
    table: Map<PeerId, ConnectionInfo>,
    peer: PeerId,
    info: ConnectionInfo,
)
    ensures
        add_peer_result(own_peer_id, table, peer, info).0.remove(peer) == table.remove(peer),
{
    let after = add_peer_result(own_peer_id, table, peer, info).0;
    assert(after.remove(peer) =~= table.remove(peer));
}

/// When the existing and the new connection to a peer have the same origin
/// (the remote dialed again, or we dialed twice), the existing, older
/// connection is the one dropped, whatever the two peer ids are.
pub proof fn lemma_same_origin_drops_existing(
    own_peer_id: PeerId,
    remote_peer_id: PeerId,
    origin: ConnectionOrigin,
)
    ensures
        drop_existing(own_peer_id, remote_peer_id, origin, origin),
{
}

/// After a connection is offered, the peer maps to exactly the offered
/// connection, unless the offer was rejected, in which case the table is
/// unchanged; a replaced connection is the one that was recorded before, and
/// the offer is added only for a peer that had none.
pub proof fn lemma_add_peer_stores_offered_connection(
    own_peer_id: PeerId,
    table: Map<PeerId, ConnectionInfo>,
    peer: PeerId,
    info: ConnectionInfo,
)
    ensures
        ({
            let (after, outcome) = add_peer_result(own_peer_id, table, peer, info);
            &&& outcome == AddPeerOutcome::Rejected <==> after == table && table.contains_key(peer)
                && !drop_existing(own_peer_id, peer, table[peer].origin, info.origin)
            &&& outcome != AddPeerOutcome::Rejected ==> after == table.insert(peer, info)
            &&& outcome == AddPeerOutcome::Added <==> !table.contains_key(peer)
            &&& outcome matches AddPeerOutcome::Replaced(old) ==> table.contains_key(peer) && old
                == table[peer]
            &&& table.contains_key(peer) && drop_existing(own_peer_id, peer, table[peer].origin, info.origin)
                ==> after[peer] == info && outcome == AddPeerOutcome::Replaced(table[peer])
        }),
{
}

} // verus!
