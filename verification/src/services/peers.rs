//! Peer lifecycle: what the node does to its swarm and its peer table when
//! peers are discovered, connect and go away. The service records these
//! actions in order; the event loop carries them out.
use vstd::prelude::*;
use libp2p::{Multiaddr, PeerId};
use crate::protocol::message::{Message, MessageView};
use crate::types::clone_multiaddr;

verus! {

/// One thing to do to the swarm or the peer table.
#[derive(Debug)]
pub enum PeerAction {
    /// Accept gossip from the peer (gossipsub explicit peer list).
    AddExplicitPeer(PeerId),
    /// Stop accepting gossip from the peer.
    RemoveExplicitPeer(PeerId),
    /// Record the address in the Kademlia routing table.
    AddPeerAddress(PeerId, Multiaddr),
    /// Store the address in the peer table on disk.
    SavePeer(PeerId, Multiaddr),
    /// Answer the pending direct request with this message.
    SendDirectResponse(Message),
}

/// A peer action as mathematical values.
pub enum PeerActionView {
    AddExplicitPeer(PeerId),
    RemoveExplicitPeer(PeerId),
    AddPeerAddress(PeerId, Multiaddr),
    SavePeer(PeerId, Multiaddr),
    SendDirectResponse(MessageView),
}

impl View for PeerAction {
    type V = PeerActionView;

    open spec fn view(&self) -> PeerActionView {
        match self {
            PeerAction::AddExplicitPeer(p) => PeerActionView::AddExplicitPeer(*p),
            PeerAction::RemoveExplicitPeer(p) => PeerActionView::RemoveExplicitPeer(*p),
            PeerAction::AddPeerAddress(p, a) => PeerActionView::AddPeerAddress(*p, *a),
            PeerAction::SavePeer(p, a) => PeerActionView::SavePeer(*p, *a),
            PeerAction::SendDirectResponse(m) => PeerActionView::SendDirectResponse(m@),
        }
    }
}

/// The actions for a peer reported at `addresses`: for each address in turn,
/// route to it and store it.
pub open spec fn routed_actions(peer_id: PeerId, addresses: Seq<Multiaddr>) -> Seq<PeerActionView>
    decreases addresses.len(),
{
    if addresses.len() == 0 {
        Seq::empty()
    } else {
        routed_actions(peer_id, addresses.drop_last()) + seq![
            PeerActionView::AddPeerAddress(peer_id, addresses.last()),
            PeerActionView::SavePeer(peer_id, addresses.last()),
        ]
    }
}

/// The actions for a peer discovered at `addresses`: accept its gossip, then
/// route to and store each address.
pub open spec fn discovered_actions(peer_id: PeerId, addresses: Seq<Multiaddr>) -> Seq<PeerActionView> {
    seq![PeerActionView::AddExplicitPeer(peer_id)] + routed_actions(peer_id, addresses)
}

/// Every address stored in the peer table was routed to just before, in the
/// step right ahead of it.
pub open spec fn saves_follow_routes(actions: Seq<PeerActionView>) -> bool {
    forall|i: int| 0 <= i < actions.len() ==> match #[trigger] actions[i] {
        PeerActionView::SavePeer(p, a) => i > 0 && actions[i - 1] == PeerActionView::AddPeerAddress(p, a),
        _ => true,
    }
}

/// Joining two action lists that each store only routed addresses keeps it so.
pub proof fn lemma_saves_follow_routes_concat(a: Seq<PeerActionView>, b: Seq<PeerActionView>)
    requires
        saves_follow_routes(a),
        saves_follow_routes(b),
        b.len() > 0 ==> !(b[0] is SavePeer),
    ensures
        saves_follow_routes(a + b),
{
    let c = a + b;
    assert forall|i: int| 0 <= i < c.len() implies match #[trigger] c[i] {
        PeerActionView::SavePeer(p, x) => i > 0 && c[i - 1] == PeerActionView::AddPeerAddress(p, x),
        _ => true,
    } by {
        if i < a.len() {
            assert(c[i] == a[i]);
            if i > 0 {
                assert(c[i - 1] == a[i - 1]);
            }
        } else {
            assert(c[i] == b[i - a.len()]);
            if i - a.len() > 0 {
                assert(c[i - 1] == b[i - a.len() - 1]);
            }
        }
    }
}

/// Each address of a reported peer is stored only right after it was routed
/// to, and every address gets both steps.
pub proof fn lemma_routed_actions(peer_id: PeerId, addresses: Seq<Multiaddr>)
    ensures
        saves_follow_routes(routed_actions(peer_id, addresses)),
        routed_actions(peer_id, addresses).len() == 2 * addresses.len(),
        addresses.len() > 0 ==> routed_actions(peer_id, addresses)[0]
            == PeerActionView::AddPeerAddress(peer_id, addresses[0]),
    decreases addresses.len(),
{
    if addresses.len() > 0 {
        lemma_routed_actions(peer_id, addresses.drop_last());
        let tail = seq![
            PeerActionView::AddPeerAddress(peer_id, addresses.last()),
            PeerActionView::SavePeer(peer_id, addresses.last()),
        ];
        assert(saves_follow_routes(tail)) by {
            assert forall|i: int| 0 <= i < tail.len() implies match #[trigger] tail[i] {
                PeerActionView::SavePeer(p, a) => i > 0 && tail[i - 1] == PeerActionView::AddPeerAddress(p, a),
                _ => true,
            } by {
                if i == 1 {
                    assert(tail[0] == PeerActionView::AddPeerAddress(peer_id, addresses.last()));
                }
            }
        }
        lemma_saves_follow_routes_concat(routed_actions(peer_id, addresses.drop_last()), tail);
        if addresses.len() > 1 {
            assert(addresses.drop_last()[0] == addresses[0]);
        }
    }
}

/// A peer discovered at some addresses is first let into the gossip, and each
/// of its addresses is stored only right after it was routed to.
pub proof fn lemma_discovery_routes_before_storing(peer_id: PeerId, addresses: Seq<Multiaddr>)
    ensures
        discovered_actions(peer_id, addresses)[0] == PeerActionView::AddExplicitPeer(peer_id),
        discovered_actions(peer_id, addresses).len() == 1 + 2 * addresses.len(),
        saves_follow_routes(discovered_actions(peer_id, addresses)),
{
    lemma_routed_actions(peer_id, addresses);
    let head = seq![PeerActionView::AddExplicitPeer(peer_id)];
    assert(saves_follow_routes(head)) by {
        assert forall|i: int| 0 <= i < head.len() implies match #[trigger] head[i] {
            PeerActionView::SavePeer(p, a) => i > 0 && head[i - 1] == PeerActionView::AddPeerAddress(p, a),
            _ => true,
        } by {
            assert(head[i] == PeerActionView::AddExplicitPeer(peer_id));
        }
    }
    lemma_saves_follow_routes_concat(head, routed_actions(peer_id, addresses));
}

/// Every reported address is routed to and stored, in the order reported:
/// the actions are, for each address in turn, a route to it and then storing
/// it, and nothing else.
pub proof fn lemma_routes_and_stores_each_address(peer_id: PeerId, addresses: Seq<Multiaddr>)
    ensures
        routed_actions(peer_id, addresses).len() == 2 * addresses.len(),
        forall|i: int| #![trigger addresses[i]] 0 <= i < addresses.len() ==> {
            &&& routed_actions(peer_id, addresses)[2 * i] == PeerActionView::AddPeerAddress(peer_id, addresses[i])
            &&& routed_actions(peer_id, addresses)[2 * i + 1] == PeerActionView::SavePeer(peer_id, addresses[i])
        },
    decreases addresses.len(),
{
    if addresses.len() > 0 {
        let front = addresses.drop_last();
        lemma_routes_and_stores_each_address(peer_id, front);
        let n = addresses.len() - 1;
        assert forall|i: int| #![trigger addresses[i]] 0 <= i < addresses.len() implies {
            &&& routed_actions(peer_id, addresses)[2 * i] == PeerActionView::AddPeerAddress(peer_id, addresses[i])
            &&& routed_actions(peer_id, addresses)[2 * i + 1] == PeerActionView::SavePeer(peer_id, addresses[i])
        } by {
            if i < n {
                assert(front[i] == addresses[i]);
            }
        }
    }
}

/// A peer discovered at some addresses is first let into the gossip, and then
/// each of its addresses, in the order reported, is routed to and stored.
pub proof fn lemma_discovery_routes_and_stores_each_address(peer_id: PeerId, addresses: Seq<Multiaddr>)
    ensures
        discovered_actions(peer_id, addresses).len() == 1 + 2 * addresses.len(),
        discovered_actions(peer_id, addresses)[0] == PeerActionView::AddExplicitPeer(peer_id),
        forall|i: int| #![trigger addresses[i]] 0 <= i < addresses.len() ==> {
            &&& discovered_actions(peer_id, addresses)[1 + 2 * i] == PeerActionView::AddPeerAddress(peer_id, addresses[i])
            &&& discovered_actions(peer_id, addresses)[2 + 2 * i] == PeerActionView::SavePeer(peer_id, addresses[i])
        },
{
    lemma_routes_and_stores_each_address(peer_id, addresses);
    assert forall|i: int| #![trigger addresses[i]] 0 <= i < addresses.len() implies {
        &&& discovered_actions(peer_id, addresses)[1 + 2 * i] == PeerActionView::AddPeerAddress(peer_id, addresses[i])
        &&& discovered_actions(peer_id, addresses)[2 + 2 * i] == PeerActionView::SavePeer(peer_id, addresses[i])
    } by {
        assert(discovered_actions(peer_id, addresses)[1 + 2 * i] == routed_actions(peer_id, addresses)[2 * i]);
        assert(discovered_actions(peer_id, addresses)[2 + 2 * i] == routed_actions(peer_id, addresses)[2 * i + 1]);
    }
}

/// Records, in order, what the node must do about its peers.
pub struct PeerService {
    actions: Vec<PeerAction>,
}

impl View for PeerService {
    type V = Seq<PeerActionView>;

    closed spec fn view(&self) -> Seq<PeerActionView> {
        self.actions@.map_values(|a: PeerAction| a@)
    }
}

impl PeerService {
    /// A service with nothing to do yet.
    pub fn new() -> (service: Self)
        ensures
            service@ == Seq::<PeerActionView>::empty(),
    {
        let service = PeerService { actions: Vec::new() };
        assert(service@ =~= Seq::<PeerActionView>::empty());
        service
    }

    fn record(&mut self, action: PeerAction)
        ensures
            final(self)@ == old(self)@.push(action@),
    {
        self.actions.push(action);
        assert(self@ =~= old(self)@.push(action@));
    }

    /// Answers the pending direct request with `response`.
    pub fn send_direct_response(&mut self, response: Message)
        ensures
            final(self)@ == old(self)@.push(PeerActionView::SendDirectResponse(response@)),
    {
        self.record(PeerAction::SendDirectResponse(response));
    }

    /// A peer was discovered (Identify or mDNS) listening at `addresses`:
    /// accept its gossip, then route to and store each address.
    pub fn on_peer_discovered(&mut self, peer_id: PeerId, addresses: Vec<Multiaddr>)
        ensures
            final(self)@ == old(self)@ + discovered_actions(peer_id, addresses@),
    {
        self.record(PeerAction::AddExplicitPeer(peer_id));
        let ghost start = self@;
        assert(self@ =~= start + routed_actions(peer_id, addresses@.subrange(0, 0)));
        let mut k: usize = 0;
        while k < addresses.len()
            invariant
                k <= addresses@.len(),
                start == old(self)@.push(PeerActionView::AddExplicitPeer(peer_id)),
                self@ == start + routed_actions(peer_id, addresses@.subrange(0, k as int)),
            decreases addresses@.len() - k,
        {
            let ghost before = self@;
            self.record(PeerAction::AddPeerAddress(peer_id, clone_multiaddr(&addresses[k])));
            self.record(PeerAction::SavePeer(peer_id, clone_multiaddr(&addresses[k])));
            assert(addresses@.subrange(0, k + 1).drop_last() =~= addresses@.subrange(0, k as int));
            assert(self@ =~= start + routed_actions(peer_id, addresses@.subrange(0, k + 1)));
            k = k + 1;
        }
        assert(addresses@.subrange(0, addresses@.len() as int) =~= addresses@);
        assert(self@ =~= old(self)@ + discovered_actions(peer_id, addresses@));
    }

    /// A direct connection to the peer was established: accept its gossip.
    pub fn on_peer_connected(&mut self, peer_id: PeerId)
        ensures
            final(self)@ == old(self)@.push(PeerActionView::AddExplicitPeer(peer_id)),
    {
        self.record(PeerAction::AddExplicitPeer(peer_id));
    }

    /// The peer went away (mDNS expiry or connection closed): stop accepting its gossip.
    pub fn on_peer_disconnected(&mut self, peer_id: PeerId)
        ensures
            final(self)@ == old(self)@.push(PeerActionView::RemoveExplicitPeer(peer_id)),
    {
        self.record(PeerAction::RemoveExplicitPeer(peer_id));
    }

    /// Hands over the recorded actions, oldest first, and forgets them.
    pub fn take_actions(&mut self) -> (actions: Vec<PeerAction>)
        ensures
            actions@.map_values(|a: PeerAction| a@) == old(self)@,
            final(self)@ == Seq::<PeerActionView>::empty(),
    {
        let mut actions = Vec::new();
        std::mem::swap(&mut actions, &mut self.actions);
        assert(self@ =~= Seq::<PeerActionView>::empty());
        actions
    }
}

} // verus!
