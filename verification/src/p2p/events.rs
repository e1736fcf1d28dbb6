//! What the node does about each event that its swarm reports: which peer
//! actions to take, how its relay state changes, and what to log.
use vstd::prelude::*;
use libp2p::{Multiaddr, PeerId};
use crate::p2p::relay::{
    after_client_event, after_server_event, RelayClientEvent, RelayManager, RelayManagerView,
    RelayServerEvent,
};
use crate::protocol::message::{Message, MessageView};
use crate::services::peers::{
    discovered_actions, lemma_discovery_routes_and_stores_each_address, lemma_discovery_routes_before_storing, lemma_saves_follow_routes_concat,
    saves_follow_routes, PeerActionView, PeerService,
};
use crate::types::clone_multiaddr;

verus! {

/// A swarm event, carrying as plain values what the node reads of it.
#[derive(Debug)]
pub enum NodeEvent {
    /// A gossip message relayed by `peer_id` with payload `data`; `message` is
    /// the payload decoded, or `None` where it is not an application message.
    /// Every gossip message is logged with its payload as text; a decoded one
    /// is also described.
    GossipMessage { peer_id: PeerId, data: Vec<u8>, message: Option<Message> },
    /// A peer subscribed to a topic.
    GossipSubscribed { peer_id: PeerId, topic: String },
    /// A peer unsubscribed from a topic.
    GossipUnsubscribed { peer_id: PeerId, topic: String },
    /// A peer sent a direct request; the channel to answer it stays with the event loop.
    DirectRequest { peer_id: PeerId, request: Message },
    /// A peer answered one of our direct requests.
    DirectResponse { peer_id: PeerId, response: Message },
    /// Identify told us where a peer listens.
    IdentifyReceived { peer_id: PeerId, listen_addrs: Vec<Multiaddr> },
    /// mDNS found peers on the local network.
    MdnsDiscovered(Vec<(PeerId, Multiaddr)>),
    /// mDNS records of peers expired.
    MdnsExpired(Vec<(PeerId, Multiaddr)>),
    /// The outcome of a hole punch; the failure's debug text.
    HolePunch { remote_peer_id: PeerId, result: Result<(), String> },
    /// A direct connection opened; `dialer` when we dialed it.
    ConnectionEstablished { peer_id: PeerId, dialer: bool, remote_address: Multiaddr },
    /// A connection closed.
    ConnectionClosed { peer_id: PeerId },
    /// Dialing out failed; the error's text.
    OutgoingConnectionError { peer_id: Option<PeerId>, error: String },
    /// The node listens on a new address.
    NewListenAddr { address: Multiaddr },
    /// The relay server behaviour reported something.
    RelayServer(RelayServerEvent),
    /// The relay client behaviour reported something.
    RelayClient(RelayClientEvent),
    /// The node is dialing.
    Dialing { peer_id: Option<PeerId> },
    /// Anything else the swarm reports.
    Other,
}

/// Where a received application message came from.
#[derive(Debug, Clone, Copy)]
pub enum ReceiveContext {
    GossipMesh,
    DirectPointToPoint,
    DirectReceipt,
}

/// One line for the node's log.
#[derive(Debug)]
pub enum NodeLog {
    Received { context: ReceiveContext, peer_id: PeerId, message: Message },
    GotMessage { peer_id: PeerId, data: Vec<u8> },
    Identified { peer_id: PeerId },
    Subscribed { peer_id: PeerId, topic: String },
    Unsubscribed { peer_id: PeerId, topic: String },
    MdnsDiscovered { peer_id: PeerId, addr: Multiaddr },
    HolePunchSucceeded { peer_id: PeerId },
    HolePunchFailed { peer_id: PeerId, reason: String },
    ConnectionEstablished { peer_id: PeerId, outbound: bool, remote_address: Multiaddr },
    ConnectionClosed { peer_id: PeerId },
    DialFailed { peer_id: Option<PeerId>, error: String },
    Listening { address: Multiaddr },
    Dialing { peer_id: PeerId },
    RelayOutboundCircuit { relay_peer_id: PeerId },
    RelayInboundCircuit { src_peer_id: PeerId },
    RelayReservationAccepted { src_peer_id: PeerId },
    RelayReservationDenied { src_peer_id: PeerId },
    RelayReservationTimedOut { src_peer_id: PeerId },
}

/// The text of the answer to a direct request.
pub open spec fn direct_ack_text() -> Seq<char> {
    "ACK: Message delivered directly."@
}

/// The actions for peers found by mDNS: each is discovered at its one address.
pub open spec fn mdns_discovered_actions(found: Seq<(PeerId, Multiaddr)>) -> Seq<PeerActionView>
    decreases found.len(),
{
    if found.len() == 0 {
        Seq::empty()
    } else {
        mdns_discovered_actions(found.drop_last()) + discovered_actions(found.last().0, seq![found.last().1])
    }
}

/// The log lines for peers found by mDNS.
pub open spec fn mdns_discovered_logs(found: Seq<(PeerId, Multiaddr)>) -> Seq<NodeLog> {
    found.map_values(|f: (PeerId, Multiaddr)| NodeLog::MdnsDiscovered { peer_id: f.0, addr: f.1 })
}

/// The actions for expired mDNS records: each peer goes away.
pub open spec fn mdns_expired_actions(expired: Seq<(PeerId, Multiaddr)>) -> Seq<PeerActionView> {
    expired.map_values(|f: (PeerId, Multiaddr)| PeerActionView::RemoveExplicitPeer(f.0))
}

/// The peer actions that an event calls for.
pub open spec fn event_actions(event: NodeEvent) -> Seq<PeerActionView> {
    match event {
        NodeEvent::DirectRequest { .. } => seq![
            PeerActionView::SendDirectResponse(MessageView::Chat(direct_ack_text())),
        ],
        NodeEvent::IdentifyReceived { peer_id, listen_addrs } => discovered_actions(peer_id, listen_addrs@),
        NodeEvent::MdnsDiscovered(found) => mdns_discovered_actions(found@),
        NodeEvent::MdnsExpired(expired) => mdns_expired_actions(expired@),
        NodeEvent::ConnectionEstablished { peer_id, .. } => seq![PeerActionView::AddExplicitPeer(peer_id)],
        NodeEvent::ConnectionClosed { peer_id } => seq![PeerActionView::RemoveExplicitPeer(peer_id)],
        _ => Seq::empty(),
    }
}

/// The log lines that a relay client event calls for.
pub open spec fn relay_client_logs(event: RelayClientEvent) -> Seq<NodeLog> {
    match event {
        RelayClientEvent::ReservationReqAccepted { .. } => Seq::empty(),
        RelayClientEvent::OutboundCircuitEstablished { relay_peer_id } => seq![
            NodeLog::RelayOutboundCircuit { relay_peer_id },
        ],
        RelayClientEvent::InboundCircuitEstablished { src_peer_id } => seq![
            NodeLog::RelayInboundCircuit { src_peer_id },
        ],
    }
}

/// The log lines that a relay server event calls for.
pub open spec fn relay_server_logs(event: RelayServerEvent) -> Seq<NodeLog> {
    match event {
        RelayServerEvent::ReservationReqAccepted { src_peer_id, .. } => seq![
            NodeLog::RelayReservationAccepted { src_peer_id },
        ],
        RelayServerEvent::ReservationReqDenied { src_peer_id } => seq![
            NodeLog::RelayReservationDenied { src_peer_id },
        ],
        RelayServerEvent::ReservationTimedOut { src_peer_id } => seq![
            NodeLog::RelayReservationTimedOut { src_peer_id },
        ],
        RelayServerEvent::Other => Seq::empty(),
    }
}

/// The log lines that an event calls for.
pub open spec fn event_logs(event: NodeEvent) -> Seq<NodeLog> {
    match event {
        NodeEvent::GossipMessage { peer_id, data, message } => seq![NodeLog::GotMessage { peer_id, data }]
            + match message {
            Some(m) => seq![NodeLog::Received { context: ReceiveContext::GossipMesh, peer_id, message: m }],
            None => Seq::empty(),
        },
        NodeEvent::IdentifyReceived { peer_id, .. } => seq![NodeLog::Identified { peer_id }],
        NodeEvent::GossipSubscribed { peer_id, topic } => seq![NodeLog::Subscribed { peer_id, topic }],
        NodeEvent::GossipUnsubscribed { peer_id, topic } => seq![NodeLog::Unsubscribed { peer_id, topic }],
        NodeEvent::DirectRequest { peer_id, request } => seq![
            NodeLog::Received { context: ReceiveContext::DirectPointToPoint, peer_id, message: request },
        ],
        NodeEvent::DirectResponse { peer_id, response } => seq![
            NodeLog::Received { context: ReceiveContext::DirectReceipt, peer_id, message: response },
        ],
        NodeEvent::MdnsDiscovered(found) => mdns_discovered_logs(found@),
        NodeEvent::HolePunch { remote_peer_id, result } => match result {
            Ok(()) => seq![NodeLog::HolePunchSucceeded { peer_id: remote_peer_id }],
            Err(reason) => seq![NodeLog::HolePunchFailed { peer_id: remote_peer_id, reason }],
        },
        NodeEvent::ConnectionEstablished { peer_id, dialer, remote_address } => seq![
            NodeLog::ConnectionEstablished { peer_id, outbound: dialer, remote_address },
        ],
        NodeEvent::ConnectionClosed { peer_id } => seq![NodeLog::ConnectionClosed { peer_id }],
        NodeEvent::OutgoingConnectionError { peer_id, error } => seq![NodeLog::DialFailed { peer_id, error }],
        NodeEvent::NewListenAddr { address } => seq![NodeLog::Listening { address }],
        NodeEvent::RelayServer(e) => relay_server_logs(e),
        NodeEvent::RelayClient(e) => relay_client_logs(e),
        NodeEvent::Dialing { peer_id } => match peer_id {
            Some(p) => seq![NodeLog::Dialing { peer_id: p }],
            None => Seq::empty(),
        },
        _ => Seq::empty(),
    }
}

/// The relay state after an event: only relay events change it.
pub open spec fn relay_after_event(m: RelayManagerView, event: NodeEvent) -> RelayManagerView {
    match event {
        NodeEvent::RelayServer(e) => after_server_event(m, e),
        NodeEvent::RelayClient(e) => after_client_event(m, e),
        _ => m,
    }
}

proof fn lemma_mdns_routes_before_storing(found: Seq<(PeerId, Multiaddr)>)
    ensures
        saves_follow_routes(mdns_discovered_actions(found)),
    decreases found.len(),
{
    if found.len() > 0 {
        lemma_mdns_routes_before_storing(found.drop_last());
        lemma_discovery_routes_before_storing(found.last().0, seq![found.last().1]);
        lemma_saves_follow_routes_concat(
            mdns_discovered_actions(found.drop_last()),
            discovered_actions(found.last().0, seq![found.last().1]),
        );
    }
}

/// Whatever the event, the node stores a peer's address in its peer table
/// only right after routing to that address: no stored address is one the
/// routing table was not given.
pub proof fn lemma_events_route_before_storing(event: NodeEvent)
    ensures
        saves_follow_routes(event_actions(event)),
{
    match event {
        NodeEvent::IdentifyReceived { peer_id, listen_addrs } => {
            lemma_discovery_routes_before_storing(peer_id, listen_addrs@);
        },
        NodeEvent::MdnsDiscovered(found) => {
            lemma_mdns_routes_before_storing(found@);
        },
        _ => {},
    }
}

proof fn lemma_mdns_discovery_each_peer(found: Seq<(PeerId, Multiaddr)>)
    ensures
        mdns_discovered_actions(found).len() == 3 * found.len(),
        forall|i: int| #![trigger found[i]] 0 <= i < found.len() ==> {
            &&& mdns_discovered_actions(found)[3 * i] == PeerActionView::AddExplicitPeer(found[i].0)
            &&& mdns_discovered_actions(found)[3 * i + 1] == PeerActionView::AddPeerAddress(found[i].0, found[i].1)
            &&& mdns_discovered_actions(found)[3 * i + 2] == PeerActionView::SavePeer(found[i].0, found[i].1)
        },
    decreases found.len(),
{
    if found.len() > 0 {
        let front = found.drop_last();
        let n = found.len() - 1;
        let last = found[n];
        lemma_mdns_discovery_each_peer(front);
        lemma_discovery_routes_and_stores_each_address(last.0, seq![last.1]);
        assert(seq![last.1][0] == last.1);
        assert forall|i: int| #![trigger found[i]] 0 <= i < found.len() implies {
            &&& mdns_discovered_actions(found)[3 * i] == PeerActionView::AddExplicitPeer(found[i].0)
            &&& mdns_discovered_actions(found)[3 * i + 1] == PeerActionView::AddPeerAddress(found[i].0, found[i].1)
            &&& mdns_discovered_actions(found)[3 * i + 2] == PeerActionView::SavePeer(found[i].0, found[i].1)
        } by {
            if i < n {
                assert(front[i] == found[i]);
            }
        }
    }
}

/// What each event does to the node's peers. A direct request is answered
/// with the delivery acknowledgement. A peer reported by Identify is let into
/// the gossip, then each of its addresses, in order, is routed to and stored.
/// Each peer found by mDNS, in order, is let into the gossip and its address
/// routed to and stored; each peer whose mDNS record expired, in order, is
/// dropped from the gossip. A new connection lets its peer into the gossip and
/// a closed one drops it. No other event touches the peers.
pub proof fn lemma_event_peer_actions(event: NodeEvent)
    ensures
        match event {
            NodeEvent::DirectRequest { .. } => event_actions(event) == seq![
                PeerActionView::SendDirectResponse(MessageView::Chat("ACK: Message delivered directly."@)),
            ],
            NodeEvent::IdentifyReceived { peer_id, listen_addrs } => {
                &&& event_actions(event).len() == 1 + 2 * listen_addrs@.len()
                &&& event_actions(event)[0] == PeerActionView::AddExplicitPeer(peer_id)
                &&& forall|i: int| #![trigger listen_addrs@[i]] 0 <= i < listen_addrs@.len() ==> {
                    &&& event_actions(event)[1 + 2 * i] == PeerActionView::AddPeerAddress(peer_id, listen_addrs@[i])
                    &&& event_actions(event)[2 + 2 * i] == PeerActionView::SavePeer(peer_id, listen_addrs@[i])
                }
            },
            NodeEvent::MdnsDiscovered(found) => {
                &&& event_actions(event).len() == 3 * found@.len()
                &&& forall|i: int| #![trigger found@[i]] 0 <= i < found@.len() ==> {
                    &&& event_actions(event)[3 * i] == PeerActionView::AddExplicitPeer(found@[i].0)
                    &&& event_actions(event)[3 * i + 1] == PeerActionView::AddPeerAddress(found@[i].0, found@[i].1)
                    &&& event_actions(event)[3 * i + 2] == PeerActionView::SavePeer(found@[i].0, found@[i].1)
                }
            },
            NodeEvent::MdnsExpired(expired) => {
                &&& event_actions(event).len() == expired@.len()
                &&& forall|i: int| #![trigger expired@[i]] 0 <= i < expired@.len()
                    ==> event_actions(event)[i] == PeerActionView::RemoveExplicitPeer(expired@[i].0)
            },
            NodeEvent::ConnectionEstablished { peer_id, .. } => event_actions(event) == seq![
                PeerActionView::AddExplicitPeer(peer_id),
            ],
            NodeEvent::ConnectionClosed { peer_id } => event_actions(event) == seq![
                PeerActionView::RemoveExplicitPeer(peer_id),
            ],
            _ => event_actions(event).len() == 0,
        },
{
    reveal_strlit("ACK: Message delivered directly.");
    match event {
        NodeEvent::IdentifyReceived { peer_id, listen_addrs } => {
            lemma_discovery_routes_and_stores_each_address(peer_id, listen_addrs@);
        },
        NodeEvent::MdnsDiscovered(found) => {
            lemma_mdns_discovery_each_peer(found@);
        },
        _ => {},
    }
}

/// Only relay events change the relay manager: after any other event it is
/// the manager it was before.
pub proof fn lemma_only_relay_events_change_relay(m: RelayManagerView, event: NodeEvent)
    ensures
        !(event is RelayServer) && !(event is RelayClient) ==> relay_after_event(m, event) == m,
{
}

/// What each event logs. Every gossip message is logged first with its
/// payload as text and its relaying peer, and a decoded one is then described;
/// direct requests and responses are described; each peer found by mDNS gets
/// one line, in order; Identify, connections, listen addresses and dialing a
/// known peer get one line each, and so do gossip subscriptions, hole punches,
/// failed dials and relay events other than a relay accepting our own
/// reservation; expired mDNS records and unhandled events log nothing.
pub proof fn lemma_event_logs(event: NodeEvent)
    ensures
        match event {
            NodeEvent::GossipMessage { peer_id, data, message } => {
                &&& event_logs(event)[0] == (NodeLog::GotMessage { peer_id, data })
                &&& match message {
                    Some(m) => event_logs(event).len() == 2 && event_logs(event)[1] == (NodeLog::Received {
                        context: ReceiveContext::GossipMesh,
                        peer_id,
                        message: m,
                    }),
                    None => event_logs(event).len() == 1,
                }
            },
            NodeEvent::DirectRequest { peer_id, request } => event_logs(event) == seq![
                NodeLog::Received { context: ReceiveContext::DirectPointToPoint, peer_id, message: request },
            ],
            NodeEvent::DirectResponse { peer_id, response } => event_logs(event) == seq![
                NodeLog::Received { context: ReceiveContext::DirectReceipt, peer_id, message: response },
            ],
            NodeEvent::MdnsDiscovered(found) => {
                &&& event_logs(event).len() == found@.len()
                &&& forall|i: int| #![trigger found@[i]] 0 <= i < found@.len()
                    ==> event_logs(event)[i] == (NodeLog::MdnsDiscovered { peer_id: found@[i].0, addr: found@[i].1 })
            },
            NodeEvent::IdentifyReceived { peer_id, .. } => event_logs(event) == seq![NodeLog::Identified { peer_id }],
            NodeEvent::ConnectionEstablished { peer_id, dialer, remote_address } => event_logs(event) == seq![
                NodeLog::ConnectionEstablished { peer_id, outbound: dialer, remote_address },
            ],
            NodeEvent::ConnectionClosed { peer_id } => event_logs(event) == seq![NodeLog::ConnectionClosed { peer_id }],
            NodeEvent::NewListenAddr { address } => event_logs(event) == seq![NodeLog::Listening { address }],
            NodeEvent::Dialing { peer_id } => match peer_id {
                Some(p) => event_logs(event) == seq![NodeLog::Dialing { peer_id: p }],
                None => event_logs(event).len() == 0,
            },
            NodeEvent::MdnsExpired(_) => event_logs(event).len() == 0,
            NodeEvent::Other => event_logs(event).len() == 0,
            NodeEvent::GossipSubscribed { peer_id, topic } => event_logs(event) == seq![
                NodeLog::Subscribed { peer_id, topic },
            ],
            NodeEvent::GossipUnsubscribed { peer_id, topic } => event_logs(event) == seq![
                NodeLog::Unsubscribed { peer_id, topic },
            ],
            NodeEvent::HolePunch { remote_peer_id, result } => event_logs(event) == match result {
                Ok(()) => seq![NodeLog::HolePunchSucceeded { peer_id: remote_peer_id }],
                Err(reason) => seq![NodeLog::HolePunchFailed { peer_id: remote_peer_id, reason }],
            },
            NodeEvent::OutgoingConnectionError { peer_id, error } => event_logs(event) == seq![
                NodeLog::DialFailed { peer_id, error },
            ],
            NodeEvent::RelayServer(e) => event_logs(event) == match e {
                RelayServerEvent::ReservationReqAccepted { src_peer_id, .. } => seq![
                    NodeLog::RelayReservationAccepted { src_peer_id },
                ],
                RelayServerEvent::ReservationReqDenied { src_peer_id } => seq![
                    NodeLog::RelayReservationDenied { src_peer_id },
                ],
                RelayServerEvent::ReservationTimedOut { src_peer_id } => seq![
                    NodeLog::RelayReservationTimedOut { src_peer_id },
                ],
                RelayServerEvent::Other => Seq::<NodeLog>::empty(),
            },
            NodeEvent::RelayClient(e) => event_logs(event) == match e {
                RelayClientEvent::ReservationReqAccepted { .. } => Seq::<NodeLog>::empty(),
                RelayClientEvent::OutboundCircuitEstablished { relay_peer_id } => seq![
                    NodeLog::RelayOutboundCircuit { relay_peer_id },
                ],
                RelayClientEvent::InboundCircuitEstablished { src_peer_id } => seq![
                    NodeLog::RelayInboundCircuit { src_peer_id },
                ],
            },
        },
{
    match event {
        NodeEvent::GossipMessage { peer_id, data, message } => {
            match message {
                Some(m) => {},
                None => {},
            }
        },
        _ => {},
    }
}

/// Handles the peers that mDNS found.
fn mdns_discovered(peer_svc: &mut PeerService, found: &Vec<(PeerId, Multiaddr)>) -> (logs: Vec<NodeLog>)
    ensures
        final(peer_svc)@ == old(peer_svc)@ + mdns_discovered_actions(found@),
        logs@ == mdns_discovered_logs(found@),
{
    let mut logs: Vec<NodeLog> = Vec::new();
    let mut k: usize = 0;
    assert(peer_svc@ =~= old(peer_svc)@ + mdns_discovered_actions(found@.subrange(0, 0)));
    while k < found.len()
        invariant
            k <= found@.len(),
            peer_svc@ == old(peer_svc)@ + mdns_discovered_actions(found@.subrange(0, k as int)),
            logs@ == mdns_discovered_logs(found@.subrange(0, k as int)),
        decreases found@.len() - k,
    {
        let peer_id = found[k].0;
        let mut addresses = Vec::new();
        addresses.push(clone_multiaddr(&found[k].1));
        peer_svc.on_peer_discovered(peer_id, addresses);
        logs.push(NodeLog::MdnsDiscovered { peer_id, addr: clone_multiaddr(&found[k].1) });
        assert(found@.subrange(0, k + 1).drop_last() =~= found@.subrange(0, k as int));
        assert(addresses@ =~= seq![found@[k as int].1]);
        assert(peer_svc@ =~= old(peer_svc)@ + mdns_discovered_actions(found@.subrange(0, k + 1)));
        assert(logs@ =~= mdns_discovered_logs(found@.subrange(0, k + 1)));
        k = k + 1;
    }
    assert(found@.subrange(0, found@.len() as int) =~= found@);
    logs
}

/// Handles expired mDNS records.
fn mdns_expired(peer_svc: &mut PeerService, expired: &Vec<(PeerId, Multiaddr)>)
    ensures
        final(peer_svc)@ == old(peer_svc)@ + mdns_expired_actions(expired@),
{
    let mut k: usize = 0;
    assert(peer_svc@ =~= old(peer_svc)@ + mdns_expired_actions(expired@.subrange(0, 0)));
    while k < expired.len()
        invariant
            k <= expired@.len(),
            peer_svc@ == old(peer_svc)@ + mdns_expired_actions(expired@.subrange(0, k as int)),
        decreases expired@.len() - k,
    {
        peer_svc.on_peer_disconnected(expired[k].0);
        assert(peer_svc@ =~= old(peer_svc)@ + mdns_expired_actions(expired@.subrange(0, k + 1)));
        k = k + 1;
    }
    assert(expired@.subrange(0, expired@.len() as int) =~= expired@);
}

/// Handles one swarm event: records the peer actions it calls for, updates
/// the relay state, and gives the lines to log.
pub fn handle_swarm_event(
    peer_svc: &mut PeerService,
    relay_mgr: &mut RelayManager,
    event: NodeEvent,
) -> (logs: Vec<NodeLog>)
    ensures
        final(peer_svc)@ == old(peer_svc)@ + event_actions(event),
        final(relay_mgr)@ == relay_after_event(old(relay_mgr)@, event),
        logs@ == event_logs(event),
{
    let ghost the_event = event;
    let mut logs: Vec<NodeLog> = Vec::new();
    match event {
        NodeEvent::GossipMessage { peer_id, data, message } => {
            logs.push(NodeLog::GotMessage { peer_id, data });
            match message {
                Some(m) => logs.push(NodeLog::Received { context: ReceiveContext::GossipMesh, peer_id, message: m }),
                None => {},
            }
        },
        NodeEvent::GossipSubscribed { peer_id, topic } => logs.push(NodeLog::Subscribed { peer_id, topic }),
        NodeEvent::GossipUnsubscribed { peer_id, topic } => logs.push(NodeLog::Unsubscribed { peer_id, topic }),
        NodeEvent::DirectRequest { peer_id, request } => {
            logs.push(NodeLog::Received { context: ReceiveContext::DirectPointToPoint, peer_id, message: request });
            let ack = Message::Chat("ACK: Message delivered directly.".to_owned());
            peer_svc.send_direct_response(ack);
        },
        NodeEvent::DirectResponse { peer_id, response } => {
            logs.push(NodeLog::Received { context: ReceiveContext::DirectReceipt, peer_id, message: response });
        },
        NodeEvent::IdentifyReceived { peer_id, listen_addrs } => {
            peer_svc.on_peer_discovered(peer_id, listen_addrs);
            logs.push(NodeLog::Identified { peer_id });
        },
        NodeEvent::MdnsDiscovered(found) => {
            logs = mdns_discovered(peer_svc, &found);
        },
        NodeEvent::MdnsExpired(expired) => {
            mdns_expired(peer_svc, &expired);
        },
        NodeEvent::HolePunch { remote_peer_id, result } => match result {
            Ok(()) => logs.push(NodeLog::HolePunchSucceeded { peer_id: remote_peer_id }),
            Err(reason) => logs.push(NodeLog::HolePunchFailed { peer_id: remote_peer_id, reason }),
        },
        NodeEvent::ConnectionEstablished { peer_id, dialer, remote_address } => {
            peer_svc.on_peer_connected(peer_id);
            logs.push(NodeLog::ConnectionEstablished { peer_id, outbound: dialer, remote_address });
        },
        NodeEvent::ConnectionClosed { peer_id } => {
            peer_svc.on_peer_disconnected(peer_id);
            logs.push(NodeLog::ConnectionClosed { peer_id });
        },
        NodeEvent::OutgoingConnectionError { peer_id, error } => {
            logs.push(NodeLog::DialFailed { peer_id, error });
        },
        NodeEvent::NewListenAddr { address } => logs.push(NodeLog::Listening { address }),
        NodeEvent::RelayServer(e) => {
            relay_mgr.handle_server_event(e);
            match e {
                RelayServerEvent::ReservationReqAccepted { src_peer_id, .. } => {
                    logs.push(NodeLog::RelayReservationAccepted { src_peer_id })
                },
                RelayServerEvent::ReservationReqDenied { src_peer_id } => {
                    logs.push(NodeLog::RelayReservationDenied { src_peer_id })
                },
                RelayServerEvent::ReservationTimedOut { src_peer_id } => {
                    logs.push(NodeLog::RelayReservationTimedOut { src_peer_id })
                },
                RelayServerEvent::Other => {},
            }
        },
        NodeEvent::RelayClient(e) => {
            relay_mgr.handle_client_event(e);
            match e {
                RelayClientEvent::ReservationReqAccepted { .. } => {},
                RelayClientEvent::OutboundCircuitEstablished { relay_peer_id } => {
                    logs.push(NodeLog::RelayOutboundCircuit { relay_peer_id })
                },
                RelayClientEvent::InboundCircuitEstablished { src_peer_id } => {
                    logs.push(NodeLog::RelayInboundCircuit { src_peer_id })
                },
            }
        },
        NodeEvent::Dialing { peer_id } => match peer_id {
            Some(p) => logs.push(NodeLog::Dialing { peer_id: p }),
            None => {},
        },
        NodeEvent::Other => {},
    }
    proof {
        assert(logs@ =~= event_logs(the_event));
        assert(peer_svc@ =~= old(peer_svc)@ + event_actions(the_event));
    }
    logs
}

} // verus!
