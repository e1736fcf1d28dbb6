use libp2p::{Multiaddr, PeerId};
use p2p_tunnel::chat_node::{handle_chat_event, ChatEvent};
use p2p_tunnel::identity::{derive_peer_id, identity_from_store};
use p2p_tunnel::services::peers::PeerAction;

#[test]
fn gossip_is_printed_lossily() {
    let p = PeerId::random();
    let reaction = handle_chat_event(ChatEvent::GossipMessage { peer_id: p, data: b"hi \xff".to_vec() });
    assert!(reaction.actions.is_empty());
    assert_eq!(reaction.lines, vec![format!("Got message: 'hi \u{fffd}' from peer: {p}")]);
}

#[test]
fn identify_routes_and_stores_without_gossip_change() {
    let p = PeerId::random();
    let a: Multiaddr = "/ip4/3.3.3.3/tcp/3".parse().unwrap();
    let reaction = handle_chat_event(ChatEvent::IdentifyReceived { peer_id: p, listen_addrs: vec![a.clone()] });
    assert_eq!(reaction.lines, vec![format!("[Network] Successfully identified peer: {p}")]);
    assert_eq!(reaction.actions.len(), 2);
    assert!(matches!(&reaction.actions[0], PeerAction::AddPeerAddress(x, y) if *x == p && *y == a));
    assert!(matches!(&reaction.actions[1], PeerAction::SavePeer(x, y) if *x == p && *y == a));
}

#[test]
fn connections_and_listen_addresses_are_printed() {
    let p = PeerId::random();
    let a: Multiaddr = "/ip4/3.3.3.3/tcp/3".parse().unwrap();
    let r = handle_chat_event(ChatEvent::ConnectionEstablished { peer_id: p, dialer: false, remote_address: a.clone() });
    assert_eq!(r.lines, vec![format!("[Network] Raw TCP connection established (Inbound) with: {p} via /ip4/3.3.3.3/tcp/3")]);
    assert!(r.actions.is_empty());
    let r = handle_chat_event(ChatEvent::NewListenAddr { address: a });
    assert_eq!(r.lines, vec!["Local node is listening on /ip4/3.3.3.3/tcp/3".to_string()]);
}

#[test]
fn relay_acceptances_are_printed() {
    let p = PeerId::random();
    let r = handle_chat_event(ChatEvent::RelayServerAccepted { src_peer_id: p });
    assert_eq!(r.lines, vec![format!("Relay server: Accepted reservation request from peer: {p}")]);
    let r = handle_chat_event(ChatEvent::RelayClientAccepted { relay_peer_id: p });
    assert_eq!(r.lines, vec![format!("Relay client: Successfully registered reservation through proxy relay: {p}")]);
    let r = handle_chat_event(ChatEvent::Other);
    assert!(r.lines.is_empty() && r.actions.is_empty());
}

#[test]
fn peer_id_of_keypair() {
    let key = libp2p::identity::Keypair::generate_ed25519();
    assert_eq!(derive_peer_id(&key), key.public().to_peer_id());
    assert_ne!(derive_peer_id(&key), PeerId::random());
}

#[test]
fn identity_is_kept_and_read_back() {
    let fresh = libp2p::identity::Keypair::generate_ed25519();
    let expected = fresh.to_protobuf_encoding().unwrap();
    let (key, keep) = identity_from_store(None, fresh.clone()).unwrap();
    assert_eq!(derive_peer_id(&key), derive_peer_id(&fresh));
    let kept = keep.unwrap();
    assert_eq!(kept, expected);
    let other = libp2p::identity::Keypair::generate_ed25519();
    let (read, keep) = identity_from_store(Some(kept), other.clone()).unwrap();
    assert!(keep.is_none());
    assert_eq!(derive_peer_id(&read), derive_peer_id(&fresh));
    assert_ne!(derive_peer_id(&read), derive_peer_id(&other));
    assert!(identity_from_store(Some(vec![1, 2, 3]), other).is_err());
}
