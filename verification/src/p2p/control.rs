//! The control API through which a front end queries and drives the node.
use vstd::prelude::*;
use libp2p::{Multiaddr, PeerId};
use crate::p2p::relay::{RelayManager, RelayState};
use crate::protocol::message::Message;
use crate::types::{clone_multiaddr, peer_id_eq, peer_id_less, peer_id_precedes, peer_ids_equal};

verus! {

/// A peer and the addresses stored for it.
#[derive(Debug, Clone)]
pub struct PeerInfo {
    pub peer_id: PeerId,
    pub addresses: Vec<Multiaddr>,
}

/// A peer and its addresses as mathematical values.
pub struct PeerInfoView {
    pub peer_id: PeerId,
    pub addresses: Seq<Multiaddr>,
}

impl View for PeerInfo {
    type V = PeerInfoView;

    open spec fn view(&self) -> PeerInfoView {
        PeerInfoView { peer_id: self.peer_id, addresses: self.addresses@ }
    }
}

/// What a front end asks of the node.
#[derive(Debug)]
pub enum ControlRequest {
    ListPeers,
    GetPeer(PeerId),
    SendMessage(Message),
    SendDirect { peer_id: PeerId, message: Message },
    ReserveRelay(Multiaddr),
    GetRelayStatus,
    GetLocalPeerId,
}

/// What the node answers a front end.
#[derive(Debug)]
pub enum ControlResponse {
    Peers(Vec<PeerInfo>),
    Peer(Option<PeerInfo>),
    MessageAck,
    RelayStatus(RelayState),
    LocalPeerId(PeerId),
    Error(String),
}

/// The addresses stored for `peer_id` among `rows`, in the order of the rows.
pub open spec fn addresses_of(rows: Seq<(PeerId, Multiaddr)>, peer_id: PeerId) -> Seq<Multiaddr>
    decreases rows.len(),
{
    if rows.len() == 0 {
        Seq::empty()
    } else {
        let earlier = addresses_of(rows.drop_last(), peer_id);
        if rows.last().0 == peer_id {
            earlier.push(rows.last().1)
        } else {
            earlier
        }
    }
}

/// Some entry of `peers` is for `peer_id`.
pub open spec fn lists_peer(peers: Seq<PeerInfoView>, peer_id: PeerId) -> bool {
    exists|i: int| 0 <= i < peers.len() && peers[i].peer_id == peer_id
}

/// `peers` groups `rows` by peer: one entry per peer that occurs in the rows,
/// each with that peer's addresses in row order, the entries in the order of
/// their peer ids.
pub open spec fn groups_rows(peers: Seq<PeerInfoView>, rows: Seq<(PeerId, Multiaddr)>) -> bool {
    &&& forall|i: int| 0 <= i < peers.len() ==>
        (#[trigger] peers[i]).addresses == addresses_of(rows, peers[i].peer_id)
    &&& forall|i: int| 0 <= i < peers.len() ==> (#[trigger] peers[i]).addresses.len() > 0
    &&& forall|i: int, j: int| 0 <= i < j < peers.len() ==> peers[i].peer_id != peers[j].peer_id
    &&& forall|k: int| 0 <= k < rows.len() ==> lists_peer(peers, #[trigger] rows[k].0)
    &&& forall|i: int| 0 <= i < peers.len() - 1 ==>
        peer_id_precedes(#[trigger] peers[i].peer_id, peers[i + 1].peer_id)
}

/// The views of a list of peers.
pub open spec fn peer_views(peers: Seq<PeerInfo>) -> Seq<PeerInfoView> {
    peers.map_values(|p: PeerInfo| p@)
}

proof fn lemma_addresses_of_step(rows: Seq<(PeerId, Multiaddr)>, k: int, peer_id: PeerId)
    requires
        0 <= k < rows.len(),
    ensures
        addresses_of(rows.subrange(0, k + 1), peer_id) == if rows[k].0 == peer_id {
            addresses_of(rows.subrange(0, k), peer_id).push(rows[k].1)
        } else {
            addresses_of(rows.subrange(0, k), peer_id)
        },
{
    assert(rows.subrange(0, k + 1).drop_last() =~= rows.subrange(0, k));
}

proof fn lemma_addresses_of_absent(rows: Seq<(PeerId, Multiaddr)>, peer_id: PeerId)
    requires
        forall|k: int| 0 <= k < rows.len() ==> rows[k].0 != peer_id,
    ensures
        addresses_of(rows, peer_id) == Seq::<Multiaddr>::empty(),
    decreases rows.len(),
{
    if rows.len() > 0 {
        lemma_addresses_of_absent(rows.drop_last(), peer_id);
    }
}

proof fn lemma_addresses_of_present(rows: Seq<(PeerId, Multiaddr)>, k: int)
    requires
        0 <= k < rows.len(),
    ensures
        addresses_of(rows, rows[k].0).len() > 0,
    decreases rows.len(),
{
    if k < rows.len() - 1 {
        lemma_addresses_of_present(rows.drop_last(), k);
    }
}

/// Adding row `k` to the entry of a peer already listed keeps the grouping.
proof fn lemma_group_extend(before: Seq<PeerInfoView>, rows: Seq<(PeerId, Multiaddr)>, k: int, i: int)
    requires
        0 <= k < rows.len(),
        0 <= i < before.len(),
        before[i].peer_id == rows[k].0,
        groups_rows(before, rows.subrange(0, k)),
    ensures
        groups_rows(
            before.update(i, PeerInfoView { peer_id: rows[k].0, addresses: before[i].addresses.push(rows[k].1) }),
            rows.subrange(0, k + 1),
        ),
{
    let done = rows.subrange(0, k);
    let next = rows.subrange(0, k + 1);
    let after = before.update(i, PeerInfoView { peer_id: rows[k].0, addresses: before[i].addresses.push(rows[k].1) });
    assert forall|j: int| 0 <= j < after.len() implies (#[trigger] after[j]).addresses == addresses_of(next, after[j].peer_id) by {
        lemma_addresses_of_step(rows, k, after[j].peer_id);
    }
    assert forall|m: int| 0 <= m < next.len() implies lists_peer(after, #[trigger] next[m].0) by {
        if m < k {
            assert(next[m] == done[m]);
            let w = choose|w: int| 0 <= w < before.len() && before[w].peer_id == done[m].0;
            assert(after[w].peer_id == next[m].0);
        } else {
            assert(after[i].peer_id == next[m].0);
        }
    }
    assert forall|j: int| 0 <= j < after.len() - 1 implies
        peer_id_precedes(#[trigger] after[j].peer_id, after[j + 1].peer_id) by {
        assert(before[j].peer_id == after[j].peer_id);
        assert(before[j + 1].peer_id == after[j + 1].peer_id);
    }
}

/// The entries of `before.insert(at, fresh)` are those of `before` around `fresh`.
proof fn lemma_insert_entries(before: Seq<PeerInfoView>, at: int, fresh: PeerInfoView)
    requires
        0 <= at <= before.len(),
    ensures
        forall|j: int| 0 <= j < at ==> #[trigger] before.insert(at, fresh)[j] == before[j],
        before.insert(at, fresh)[at] == fresh,
        forall|j: int| at < j <= before.len() ==> #[trigger] before.insert(at, fresh)[j] == before[j - 1],
{
}

/// Adding row `k`, whose peer is not listed yet, as a new entry at its place
/// in the order keeps the grouping.
proof fn lemma_group_insert(before: Seq<PeerInfoView>, rows: Seq<(PeerId, Multiaddr)>, k: int, at: int)
    requires
        0 <= k < rows.len(),
        0 <= at <= before.len(),
        forall|j: int| 0 <= j < before.len() ==> before[j].peer_id != rows[k].0,
        at > 0 ==> peer_id_precedes(before[at - 1].peer_id, rows[k].0),
        at < before.len() ==> peer_id_precedes(rows[k].0, before[at].peer_id),
        groups_rows(before, rows.subrange(0, k)),
    ensures
        groups_rows(
            before.insert(at, PeerInfoView { peer_id: rows[k].0, addresses: seq![rows[k].1] }),
            rows.subrange(0, k + 1),
        ),
{
    let peer_id = rows[k].0;
    let done = rows.subrange(0, k);
    let next = rows.subrange(0, k + 1);
    let fresh = PeerInfoView { peer_id, addresses: seq![rows[k].1] };
    let after = before.insert(at, fresh);
    lemma_insert_entries(before, at, fresh);
    assert forall|m: int| 0 <= m < done.len() implies done[m].0 != peer_id by {
        if done[m].0 == peer_id {
            let w = choose|w: int| 0 <= w < before.len() && before[w].peer_id == done[m].0;
            assert(before[w].peer_id == peer_id);
        }
    }
    lemma_addresses_of_absent(done, peer_id);
    assert(addresses_of(done, peer_id).push(rows[k].1) =~= seq![rows[k].1]);
    assert forall|j: int| 0 <= j < after.len() implies (#[trigger] after[j]).addresses == addresses_of(next, after[j].peer_id) by {
        lemma_addresses_of_step(rows, k, after[j].peer_id);
    }
    assert forall|a: int, b: int| 0 <= a < b < after.len() implies after[a].peer_id != after[b].peer_id by {
        if a != at && b != at {
            let a0 = if a < at { a } else { a - 1 };
            let b0 = if b < at { b } else { b - 1 };
            assert(after[a] == before[a0] && after[b] == before[b0]);
        }
    }
    assert forall|m: int| 0 <= m < next.len() implies lists_peer(after, #[trigger] next[m].0) by {
        if m < k {
            assert(next[m] == done[m]);
            let w = choose|w: int| 0 <= w < before.len() && before[w].peer_id == done[m].0;
            let w1 = if w < at { w } else { w + 1 };
            assert(after[w1].peer_id == next[m].0);
        } else {
            assert(after[at].peer_id == next[m].0);
        }
    }
    assert forall|j: int| 0 <= j < after.len() - 1 implies
        peer_id_precedes(#[trigger] after[j].peer_id, after[j + 1].peer_id) by {
        if j + 1 < at {
            assert(after[j] == before[j] && after[j + 1] == before[j + 1]);
        } else if j > at {
            assert(after[j] == before[j - 1] && after[j + 1] == before[j]);
        }
    }
}

/// Some entry of `peers` is for the row's peer and holds the row's address.
pub open spec fn lists_address(peers: Seq<PeerInfoView>, row: (PeerId, Multiaddr)) -> bool {
    exists|i: int| 0 <= i < peers.len() && peers[i].peer_id == row.0 && peers[i].addresses.contains(row.1)
}

proof fn lemma_addresses_of_contains(rows: Seq<(PeerId, Multiaddr)>, k: int)
    requires
        0 <= k < rows.len(),
    ensures
        addresses_of(rows, rows[k].0).contains(rows[k].1),
    decreases rows.len(),
{
    if k == rows.len() - 1 {
        let a = addresses_of(rows, rows[k].0);
        assert(a[a.len() - 1] == rows[k].1);
    } else {
        lemma_addresses_of_contains(rows.drop_last(), k);
        let earlier = addresses_of(rows.drop_last(), rows[k].0);
        let w = choose|w: int| 0 <= w < earlier.len() && earlier[w] == rows[k].1;
        let a = addresses_of(rows, rows[k].0);
        assert(a[w] == earlier[w]);
    }
}

/// Listing the peers loses no stored address: for every stored row, the
/// listing has an entry for its peer, and that entry holds its address.
pub proof fn lemma_listing_keeps_every_address(peers: Seq<PeerInfoView>, rows: Seq<(PeerId, Multiaddr)>)
    requires
        groups_rows(peers, rows),
    ensures
        forall|k: int| 0 <= k < rows.len() ==> lists_address(peers, #[trigger] rows[k]),
{
    assert forall|k: int| 0 <= k < rows.len() implies lists_address(peers, #[trigger] rows[k]) by {
        assert(lists_peer(peers, rows[k].0));
        let i = choose|i: int| 0 <= i < peers.len() && peers[i].peer_id == rows[k].0;
        lemma_addresses_of_contains(rows, k);
        assert(peers[i].addresses == addresses_of(rows, peers[i].peer_id));
    }
}

/// The number of addresses that the entries of `peers` hold together.
pub open spec fn total_addresses(peers: Seq<PeerInfoView>) -> nat
    decreases peers.len(),
{
    if peers.len() == 0 {
        0
    } else {
        total_addresses(peers.drop_last()) + peers.last().addresses.len()
    }
}

/// How many of `peers` are for `peer_id`.
spec fn entries_for(peers: Seq<PeerInfoView>, peer_id: PeerId) -> nat
    decreases peers.len(),
{
    if peers.len() == 0 {
        0
    } else {
        entries_for(peers.drop_last(), peer_id) + if peers.last().peer_id == peer_id { 1nat } else { 0nat }
    }
}

/// The number of the rows' addresses that belong to the peers of `peers`.
spec fn stored_for(peers: Seq<PeerInfoView>, rows: Seq<(PeerId, Multiaddr)>) -> nat
    decreases peers.len(),
{
    if peers.len() == 0 {
        0
    } else {
        stored_for(peers.drop_last(), rows) + addresses_of(rows, peers.last().peer_id).len()
    }
}

proof fn lemma_entries_for_distinct(peers: Seq<PeerInfoView>, peer_id: PeerId)
    requires
        forall|i: int, j: int| 0 <= i < j < peers.len() ==> peers[i].peer_id != peers[j].peer_id,
    ensures
        entries_for(peers, peer_id) == if lists_peer(peers, peer_id) { 1nat } else { 0nat },
    decreases peers.len(),
{
    if peers.len() > 0 {
        let init = peers.drop_last();
        assert forall|i: int, j: int| 0 <= i < j < init.len() implies init[i].peer_id != init[j].peer_id by {
            assert(init[i] == peers[i] && init[j] == peers[j]);
        }
        lemma_entries_for_distinct(init, peer_id);
        if lists_peer(init, peer_id) {
            let w = choose|w: int| 0 <= w < init.len() && init[w].peer_id == peer_id;
            assert(peers[w].peer_id == peer_id);
            assert(lists_peer(peers, peer_id));
            assert(peers.last().peer_id != peer_id);
        } else if peers.last().peer_id == peer_id {
            assert(lists_peer(peers, peer_id));
        } else {
            assert(!lists_peer(peers, peer_id)) by {
                if lists_peer(peers, peer_id) {
                    let w = choose|w: int| 0 <= w < peers.len() && peers[w].peer_id == peer_id;
                    assert(w < init.len());
                    assert(init[w].peer_id == peer_id);
                }
            }
        }
    }
}

proof fn lemma_stored_for_step(peers: Seq<PeerInfoView>, rows: Seq<(PeerId, Multiaddr)>)
    requires
        rows.len() > 0,
    ensures
        stored_for(peers, rows) == stored_for(peers, rows.drop_last()) + entries_for(peers, rows.last().0),
    decreases peers.len(),
{
    if peers.len() > 0 {
        lemma_stored_for_step(peers.drop_last(), rows);
    }
}

proof fn lemma_stored_for_covering(peers: Seq<PeerInfoView>, rows: Seq<(PeerId, Multiaddr)>)
    requires
        forall|i: int, j: int| 0 <= i < j < peers.len() ==> peers[i].peer_id != peers[j].peer_id,
        forall|k: int| 0 <= k < rows.len() ==> lists_peer(peers, #[trigger] rows[k].0),
    ensures
        stored_for(peers, rows) == rows.len(),
    decreases rows.len(),
{
    if rows.len() == 0 {
        lemma_stored_for_empty(peers, rows);
    } else {
        let init = rows.drop_last();
        assert forall|k: int| 0 <= k < init.len() implies lists_peer(peers, #[trigger] init[k].0) by {
            assert(init[k] == rows[k]);
        }
        lemma_stored_for_covering(peers, init);
        lemma_stored_for_step(peers, rows);
        assert(lists_peer(peers, rows[rows.len() - 1].0));
        lemma_entries_for_distinct(peers, rows.last().0);
    }
}

proof fn lemma_stored_for_empty(peers: Seq<PeerInfoView>, rows: Seq<(PeerId, Multiaddr)>)
    requires
        rows.len() == 0,
    ensures
        stored_for(peers, rows) == 0,
    decreases peers.len(),
{
    if peers.len() > 0 {
        lemma_stored_for_empty(peers.drop_last(), rows);
    }
}

proof fn lemma_total_is_stored(peers: Seq<PeerInfoView>, rows: Seq<(PeerId, Multiaddr)>)
    requires
        forall|i: int| 0 <= i < peers.len() ==>
            (#[trigger] peers[i]).addresses == addresses_of(rows, peers[i].peer_id),
    ensures
        total_addresses(peers) == stored_for(peers, rows),
    decreases peers.len(),
{
    if peers.len() > 0 {
        let init = peers.drop_last();
        assert forall|i: int| 0 <= i < init.len() implies
            (#[trigger] init[i]).addresses == addresses_of(rows, init[i].peer_id) by {
            assert(init[i] == peers[i]);
        }
        lemma_total_is_stored(init, rows);
        assert(peers[peers.len() - 1] == peers.last());
    }
}

/// Listing the peers reports exactly as many addresses as there are stored
/// rows: none is dropped and none is counted twice.
pub proof fn lemma_listing_counts_every_row(peers: Seq<PeerInfoView>, rows: Seq<(PeerId, Multiaddr)>)
    requires
        groups_rows(peers, rows),
    ensures
        total_addresses(peers) == rows.len(),
{
    lemma_total_is_stored(peers, rows);
    lemma_stored_for_covering(peers, rows);
}

/// The position of the entry for `peer_id` in `peers`, if there is one. Peer
/// ids are told apart by their order, as an ordered map keyed by them does.
fn find_peer(peers: &Vec<PeerInfo>, peer_id: &PeerId) -> (at: Option<usize>)
    ensures
        at matches Some(i) ==> i < peers@.len() && peers@[i as int].peer_id == *peer_id,
        at is None ==> forall|i: int| 0 <= i < peers@.len() ==> peers@[i].peer_id != *peer_id,
{
    let mut i: usize = 0;
    while i < peers.len()
        invariant
            i <= peers@.len(),
            forall|j: int| 0 <= j < i ==> peers@[j].peer_id != *peer_id,
        decreases peers@.len() - i,
    {
        if !peer_id_less(&peers[i].peer_id, peer_id) && !peer_id_less(peer_id, &peers[i].peer_id) {
            return Some(i);
        }
        i = i + 1;
    }
    None
}

/// The position before which `peer_id` belongs in the ordered `peers`, which
/// do not hold it: after every entry whose peer comes before it.
fn insertion_point(peers: &Vec<PeerInfo>, peer_id: &PeerId) -> (at: usize)
    requires
        forall|i: int| 0 <= i < peers@.len() ==> peers@[i].peer_id != *peer_id,
    ensures
        at <= peers@.len(),
        at > 0 ==> peer_id_precedes(peers@[at - 1].peer_id, *peer_id),
        at < peers@.len() ==> peer_id_precedes(*peer_id, peers@[at as int].peer_id),
{
    let mut i: usize = 0;
    while i < peers.len()
        invariant
            i <= peers@.len(),
            forall|j: int| 0 <= j < peers@.len() ==> peers@[j].peer_id != *peer_id,
            i > 0 ==> peer_id_precedes(peers@[i - 1].peer_id, *peer_id),
        decreases peers@.len() - i,
    {
        if peer_id_less(peer_id, &peers[i].peer_id) {
            return i;
        }
        i = i + 1;
    }
    i
}

/// The stored `rows` grouped by peer, as the answer to `ListPeers` lists them.
///
/// The groups are kept in a vector sorted by peer id rather than in a
/// `BTreeMap`: vstd states what a `BTreeMap` holds only for keys whose `Ord`
/// it has a model of, and `PeerId`'s derived `Ord` is not one of them.
pub fn group_peers(rows: &Vec<(PeerId, Multiaddr)>) -> (peers: Vec<PeerInfo>)
    ensures
        groups_rows(peer_views(peers@), rows@),
{
    let mut peers: Vec<PeerInfo> = Vec::new();
    let mut k: usize = 0;
    while k < rows.len()
        invariant
            k <= rows@.len(),
            groups_rows(peer_views(peers@), rows@.subrange(0, k as int)),
        decreases rows@.len() - k,
    {
        let peer_id = rows[k].0;
        let addr = clone_multiaddr(&rows[k].1);
        let ghost before = peer_views(peers@);
        match find_peer(&peers, &peer_id) {
            Some(i) => {
                let mut entry = peers.remove(i);
                entry.addresses.push(addr);
                peers.insert(i, entry);
                proof {
                    assert(peer_views(peers@) =~= before.update(i as int, PeerInfoView {
                        peer_id,
                        addresses: before[i as int].addresses.push(rows@[k as int].1),
                    }));
                    lemma_group_extend(before, rows@, k as int, i as int);
                }
            },
            None => {
                let at = insertion_point(&peers, &peer_id);
                let mut addresses = Vec::new();
                addresses.push(addr);
                peers.insert(at, PeerInfo { peer_id, addresses });
                proof {
                    assert(peer_views(peers@) =~= before.insert(at as int, PeerInfoView {
                        peer_id,
                        addresses: seq![rows@[k as int].1],
                    }));
                    lemma_group_insert(before, rows@, k as int, at as int);
                }
            },
        }
        k = k + 1;
    }
    assert(rows@.subrange(0, rows@.len() as int) =~= rows@);
    peers
}

/// The addresses among `rows` whose peer id is `==` to `peer_id`, in row order.
pub open spec fn addresses_matching(rows: Seq<(PeerId, Multiaddr)>, peer_id: PeerId) -> Seq<Multiaddr>
    decreases rows.len(),
{
    if rows.len() == 0 {
        Seq::empty()
    } else {
        let earlier = addresses_matching(rows.drop_last(), peer_id);
        if peer_id_eq(rows.last().0, peer_id) {
            earlier.push(rows.last().1)
        } else {
            earlier
        }
    }
}

/// The addresses a peer is looked up with are exactly those of the rows whose
/// peer id is `==` to it, in row order.
pub proof fn lemma_lookup_gives_matching_rows(rows: Seq<(PeerId, Multiaddr)>, peer_id: PeerId)
    ensures
        addresses_matching(rows, peer_id) == rows.filter(|r: (PeerId, Multiaddr)| peer_id_eq(r.0, peer_id)).map_values(
            |r: (PeerId, Multiaddr)| r.1,
        ),
    decreases rows.len(),
{
    reveal(Seq::filter);
    if rows.len() > 0 {
        lemma_lookup_gives_matching_rows(rows.drop_last(), peer_id);
        let kept = rows.drop_last().filter(|r: (PeerId, Multiaddr)| peer_id_eq(r.0, peer_id));
        assert(kept.push(rows.last()).map_values(|r: (PeerId, Multiaddr)| r.1)
            =~= kept.map_values(|r: (PeerId, Multiaddr)| r.1).push(rows.last().1));
    }
}

/// The stored addresses of `peer_id` among `rows`, as the answer to `GetPeer`
/// gives them: those of every row whose peer id is `==` to it.
pub fn peer_addresses(rows: &Vec<(PeerId, Multiaddr)>, peer_id: PeerId) -> (peer: PeerInfo)
    ensures
        peer.peer_id == peer_id,
        peer.addresses@ == addresses_matching(rows@, peer_id),
{
    let mut addresses: Vec<Multiaddr> = Vec::new();
    let mut k: usize = 0;
    while k < rows.len()
        invariant
            k <= rows@.len(),
            addresses@ == addresses_matching(rows@.subrange(0, k as int), peer_id),
        decreases rows@.len() - k,
    {
        assert(rows@.subrange(0, k + 1).drop_last() =~= rows@.subrange(0, k as int));
        if peer_ids_equal(&rows[k].0, &peer_id) {
            addresses.push(clone_multiaddr(&rows[k].1));
        }
        k = k + 1;
    }
    assert(rows@.subrange(0, rows@.len() as int) =~= rows@);
    PeerInfo { peer_id, addresses }
}

/// What the node does next about a control request.
#[derive(Debug)]
pub enum ControlStep {
    /// Answer at once.
    Respond(ControlResponse),
    /// Load the stored peers, then answer with [`list_peers_response`].
    ListStoredPeers,
    /// Load the stored peers, then answer with [`get_peer_response`] for this peer.
    LookUpStoredPeer(PeerId),
    /// Publish the message on the chat topic, then give `answer`.
    Publish { message: Message, answer: ControlResponse },
    /// Send the message straight to the peer, then give `answer`.
    SendDirect { peer_id: PeerId, message: Message, answer: ControlResponse },
    /// Listen on the relay address, then answer with [`relay_reservation_response`].
    ReserveRelay(Multiaddr),
}

/// What the node does about `request`, given its relay manager and its own peer id.
pub fn handle_control_request(
    request: ControlRequest,
    relay_mgr: &RelayManager,
    local_peer_id: PeerId,
) -> (step: ControlStep)
    ensures
        match request {
            ControlRequest::ListPeers => step is ListStoredPeers,
            ControlRequest::GetPeer(peer_id) => step == ControlStep::LookUpStoredPeer(peer_id),
            ControlRequest::SendMessage(message) => step matches ControlStep::Publish { message: m, answer }
                && m == message && answer is MessageAck,
            ControlRequest::SendDirect { peer_id, message } => step matches ControlStep::SendDirect { peer_id: p, message: m, answer }
                && p == peer_id && m == message && answer is MessageAck,
            ControlRequest::ReserveRelay(addr) => step == ControlStep::ReserveRelay(addr),
            ControlRequest::GetRelayStatus => step == ControlStep::Respond(ControlResponse::RelayStatus(relay_mgr@.state)),
            ControlRequest::GetLocalPeerId => step == ControlStep::Respond(ControlResponse::LocalPeerId(local_peer_id)),
        },
{
    match request {
        ControlRequest::ListPeers => ControlStep::ListStoredPeers,
        ControlRequest::GetPeer(peer_id) => ControlStep::LookUpStoredPeer(peer_id),
        ControlRequest::SendMessage(message) => ControlStep::Publish { message, answer: ControlResponse::MessageAck },
        ControlRequest::SendDirect { peer_id, message } => ControlStep::SendDirect {
            peer_id,
            message,
            answer: ControlResponse::MessageAck,
        },
        ControlRequest::ReserveRelay(addr) => ControlStep::ReserveRelay(addr),
        ControlRequest::GetRelayStatus => ControlStep::Respond(ControlResponse::RelayStatus(*relay_mgr.status())),
        ControlRequest::GetLocalPeerId => ControlStep::Respond(ControlResponse::LocalPeerId(local_peer_id)),
    }
}

/// The answer to `ListPeers` once the stored peers are loaded: the peers
/// grouped with their addresses, or the loading error's text.
pub fn list_peers_response(loaded: Result<Vec<(PeerId, Multiaddr)>, String>) -> (response: ControlResponse)
    ensures
        match loaded {
            Ok(rows) => response matches ControlResponse::Peers(peers) && groups_rows(peer_views(peers@), rows@),
            Err(error) => response == ControlResponse::Error(error),
        },
{
    match loaded {
        Ok(rows) => ControlResponse::Peers(group_peers(&rows)),
        Err(error) => ControlResponse::Error(error),
    }
}

/// The answer to `GetPeer` once the stored peers are loaded: the peer with
/// every address stored for it (none if it is unknown), or the loading error's text.
pub fn get_peer_response(peer_id: PeerId, loaded: Result<Vec<(PeerId, Multiaddr)>, String>) -> (response: ControlResponse)
    ensures
        match loaded {
            Ok(rows) => response matches ControlResponse::Peer(Some(peer))
                && peer.peer_id == peer_id && peer.addresses@ == addresses_matching(rows@, peer_id),
            Err(error) => response == ControlResponse::Error(error),
        },
{
    match loaded {
        Ok(rows) => ControlResponse::Peer(Some(peer_addresses(&rows, peer_id))),
        Err(error) => ControlResponse::Error(error),
    }
}

/// The answer to `ReserveRelay` once the node tried to listen on the relay
/// address: an acknowledgement, or the error's text.
pub fn relay_reservation_response(result: Result<(), String>) -> (response: ControlResponse)
    ensures
        match result {
            Ok(()) => response is MessageAck,
            Err(error) => response == ControlResponse::Error(error),
        },
{
    match result {
        Ok(()) => ControlResponse::MessageAck,
        Err(error) => ControlResponse::Error(error),
    }
}

} // verus!
