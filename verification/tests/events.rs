use libp2p::{Multiaddr, PeerId};
use p2p_tunnel::p2p::events::{handle_swarm_event, NodeEvent, NodeLog, ReceiveContext};
use p2p_tunnel::p2p::log::{display_received_message, render_log};
use p2p_tunnel::p2p::relay::{RelayClientEvent, RelayManager, RelayServerEvent, RelayState};
use p2p_tunnel::protocol::Message;
use p2p_tunnel::services::peers::{PeerAction, PeerService};

fn addr(text: &str) -> Multiaddr {
    text.parse().unwrap()
}

#[test]
fn identify_discovers_peer_and_stores_each_address() {
    let mut svc = PeerService::new();
    let mut relay = RelayManager::new();
    let peer = PeerId::random();
    let a1 = addr("/ip4/10.0.0.1/tcp/4001");
    let a2 = addr("/ip4/10.0.0.1/udp/4001/quic-v1");
    let logs = handle_swarm_event(&mut svc, &mut relay, NodeEvent::IdentifyReceived { peer_id: peer, listen_addrs: vec![a1.clone(), a2.clone()] });
    assert_eq!(logs.len(), 1);
    assert_eq!(render_log(&logs[0]).text, format!("[Network] Successfully identified peer: {peer}"));
    let actions = svc.take_actions();
    assert_eq!(actions.len(), 5);
    assert!(matches!(actions[0], PeerAction::AddExplicitPeer(p) if p == peer));
    assert!(matches!(&actions[1], PeerAction::AddPeerAddress(p, a) if *p == peer && *a == a1));
    assert!(matches!(&actions[2], PeerAction::SavePeer(p, a) if *p == peer && *a == a1));
    assert!(matches!(&actions[3], PeerAction::AddPeerAddress(p, a) if *p == peer && *a == a2));
    assert!(matches!(&actions[4], PeerAction::SavePeer(p, a) if *p == peer && *a == a2));
    assert!(svc.take_actions().is_empty());
}

#[test]
fn direct_request_is_logged_and_acknowledged() {
    let mut svc = PeerService::new();
    let mut relay = RelayManager::new();
    let peer = PeerId::random();
    let logs = handle_swarm_event(&mut svc, &mut relay, NodeEvent::DirectRequest { peer_id: peer, request: Message::Chat("hey".into()) });
    assert_eq!(logs.len(), 1);
    assert!(matches!(&logs[0], NodeLog::Received { context: ReceiveContext::DirectPointToPoint, peer_id, message: Message::Chat(t) } if *peer_id == peer && t == "hey"));
    let actions = svc.take_actions();
    assert_eq!(actions.len(), 1);
    assert!(matches!(&actions[0], PeerAction::SendDirectResponse(Message::Chat(t)) if t == "ACK: Message delivered directly."));
    let line = render_log(&logs[0]);
    assert_eq!(line.text, format!(" [{peer}] (Direct Point-To-Point - Chat): hey"));
    assert!(!line.to_stderr);
}

#[test]
fn connections_and_mdns_move_explicit_peers() {
    let mut svc = PeerService::new();
    let mut relay = RelayManager::new();
    let p = PeerId::random();
    let q = PeerId::random();
    let remote = addr("/ip4/192.168.1.2/tcp/7000");
    let logs = handle_swarm_event(&mut svc, &mut relay, NodeEvent::ConnectionEstablished { peer_id: p, dialer: true, remote_address: remote.clone() });
    assert_eq!(render_log(&logs[0]).text, format!("[Network] Raw TCP connection established (Outbound) with: {p} via {remote}"));
    let logs = handle_swarm_event(&mut svc, &mut relay, NodeEvent::MdnsDiscovered(vec![(q, remote.clone())]));
    assert_eq!(render_log(&logs[0]).text, format!("mDNS discovered peer {q} at {remote}"));
    handle_swarm_event(&mut svc, &mut relay, NodeEvent::MdnsExpired(vec![(q, remote.clone())]));
    let logs = handle_swarm_event(&mut svc, &mut relay, NodeEvent::ConnectionClosed { peer_id: p });
    assert_eq!(render_log(&logs[0]).text, format!("    Connection closed with: {p}"));
    let actions = svc.take_actions();
    assert_eq!(actions.len(), 6);
    assert!(matches!(actions[0], PeerAction::AddExplicitPeer(x) if x == p));
    assert!(matches!(actions[1], PeerAction::AddExplicitPeer(x) if x == q));
    assert!(matches!(&actions[2], PeerAction::AddPeerAddress(x, a) if *x == q && *a == remote));
    assert!(matches!(&actions[3], PeerAction::SavePeer(x, a) if *x == q && *a == remote));
    assert!(matches!(actions[4], PeerAction::RemoveExplicitPeer(x) if x == q));
    assert!(matches!(actions[5], PeerAction::RemoveExplicitPeer(x) if x == p));
}

#[test]
fn relay_events_update_the_manager_and_log() {
    let mut svc = PeerService::new();
    let mut relay = RelayManager::new();
    let r = PeerId::random();
    let logs = handle_swarm_event(&mut svc, &mut relay, NodeEvent::RelayClient(RelayClientEvent::ReservationReqAccepted { relay_peer_id: r, renewal: false }));
    assert!(logs.is_empty());
    assert!(matches!(relay.status(), RelayState::ClientReserved { relay_peer_id, .. } if *relay_peer_id == r));
    let s = PeerId::random();
    let logs = handle_swarm_event(&mut svc, &mut relay, NodeEvent::RelayServer(RelayServerEvent::ReservationReqDenied { src_peer_id: s }));
    let line = render_log(&logs[0]);
    assert_eq!(line.text, format!("Relay server denied reservation from {s}"));
    assert!(line.to_stderr);
    assert!(matches!(relay.status(), RelayState::Unavailable));
    assert_eq!(relay.reservations().len(), 1);
    let logs = handle_swarm_event(&mut svc, &mut relay, NodeEvent::RelayClient(RelayClientEvent::InboundCircuitEstablished { src_peer_id: s }));
    assert_eq!(render_log(&logs[0]).text, format!("Relay client inbound circuit established from: {s}"));
    assert!(svc.take_actions().is_empty());
}

#[test]
fn other_events_log_lines() {
    let mut svc = PeerService::new();
    let mut relay = RelayManager::new();
    let p = PeerId::random();
    let cases: Vec<(NodeEvent, String, bool)> = vec![
        (NodeEvent::GossipMessage { peer_id: p, data: b"plain text".to_vec(), message: None }, format!("Got message: 'plain text' from peer: {p}"), false),
        (NodeEvent::GossipSubscribed { peer_id: p, topic: "test-net".into() }, format!("Gossipsub: peer {p} subscribed to test-net"), false),
        (NodeEvent::GossipUnsubscribed { peer_id: p, topic: "test-net".into() }, format!("Gossipsub: peer {p} unsubscribed from test-net"), false),
        (NodeEvent::HolePunch { remote_peer_id: p, result: Ok(()) }, format!("==> Hole punch succeeded with peer: {p}!"), false),
        (NodeEvent::HolePunch { remote_peer_id: p, result: Err("Timeout".into()) }, format!("==> Hole punch failed with peer {p}. Reason: Timeout"), true),
        (NodeEvent::OutgoingConnectionError { peer_id: Some(p), error: "refused".into() }, format!("Dial failed for peer {p}: refused"), true),
        (NodeEvent::OutgoingConnectionError { peer_id: None, error: "refused".into() }, "Dial failed: refused".to_string(), true),
        (NodeEvent::NewListenAddr { address: addr("/ip4/0.0.0.0/tcp/1") }, "Local node is listening on /ip4/0.0.0.0/tcp/1".to_string(), false),
        (NodeEvent::Dialing { peer_id: Some(p) }, format!("Dialing peer {p}"), false),
    ];
    for (event, text, err) in cases {
        let logs = handle_swarm_event(&mut svc, &mut relay, event);
        assert_eq!(logs.len(), 1);
        let line = render_log(&logs[0]);
        assert_eq!(line.text, text);
        assert_eq!(line.to_stderr, err);
    }
    assert!(handle_swarm_event(&mut svc, &mut relay, NodeEvent::Dialing { peer_id: None }).is_empty());
    assert!(handle_swarm_event(&mut svc, &mut relay, NodeEvent::Other).is_empty());
    assert!(svc.take_actions().is_empty());
}

#[test]
fn decoded_gossip_is_also_described() {
    let mut svc = PeerService::new();
    let mut relay = RelayManager::new();
    let p = PeerId::random();
    let data = vec![0, 0, 0, 0, 2, 0, 0, 0, 0, 0, 0, 0, b'h', b'i'];
    let logs = handle_swarm_event(&mut svc, &mut relay, NodeEvent::GossipMessage { peer_id: p, data, message: Some(Message::Chat("hi".into())) });
    assert_eq!(logs.len(), 2);
    assert_eq!(render_log(&logs[0]).text, format!("Got message: '\u{0}\u{0}\u{0}\u{0}\u{2}\u{0}\u{0}\u{0}\u{0}\u{0}\u{0}\u{0}hi' from peer: {p}"));
    assert_eq!(render_log(&logs[1]).text, format!(" [{p}] (Gossip Mesh Network - Chat): hi"));
    assert!(svc.take_actions().is_empty());
}

#[test]
fn received_messages_are_described() {
    let p = PeerId::random();
    let file = Message::FileChunk { file_name: "a.bin".into(), chunk_index: 12, data: vec![1, 2, 3] };
    assert_eq!(display_received_message(ReceiveContext::GossipMesh, &p, &file),
        format!(" [{p}] (Gossip Mesh Network - File) Chunk 12 for 'a.bin' (3 bytes)"));
    let info = Message::PeerInfo { alias: "RustNode".into(), capabilities: vec!["Gossip".into(), "Relay".into()] };
    assert_eq!(display_received_message(ReceiveContext::DirectReceipt, &p, &info),
        format!(" [{p}] (Direct Receipt Confirmation - Metadata) Node: RustNode, Specs: [\"Gossip\", \"Relay\"]"));
    let query = Message::ServiceDiscovery { service_type: "vpn-node".into() };
    assert_eq!(display_received_message(ReceiveContext::GossipMesh, &p, &query),
        format!(" [{p}] (Gossip Mesh Network - Discovery) Target scan type: vpn-node"));
    let rpc = Message::RPC { method: "ping".into(), params: vec!["param1".into()] };
    assert_eq!(display_received_message(ReceiveContext::GossipMesh, &p, &rpc),
        format!(" [{p}] (Gossip Mesh Network - RPC) Executing method 'ping' args: [\"param1\"]"));
    let big = Message::FileChunk { file_name: "b".into(), chunk_index: u64::MAX, data: vec![] };
    assert_eq!(display_received_message(ReceiveContext::GossipMesh, &p, &big),
        format!(" [{p}] (Gossip Mesh Network - File) Chunk 18446744073709551615 for 'b' (0 bytes)"));
}
