use libp2p::{Multiaddr, PeerId};
use p2p_tunnel::p2p::control::{
    get_peer_response, group_peers, handle_control_request, list_peers_response, peer_addresses,
    relay_reservation_response, ControlRequest, ControlResponse, ControlStep,
};
use p2p_tunnel::p2p::relay::{RelayManager, RelayState};
use p2p_tunnel::protocol::Message;

fn addr(text: &str) -> Multiaddr {
    text.parse().unwrap()
}

#[test]
fn grouping_orders_peers_and_keeps_row_order() {
    let mut ids = vec![PeerId::random(), PeerId::random(), PeerId::random()];
    let rows = vec![
        (ids[2], addr("/ip4/10.0.0.3/tcp/1")),
        (ids[0], addr("/ip4/10.0.0.1/tcp/1")),
        (ids[2], addr("/ip4/10.0.0.3/tcp/2")),
        (ids[1], addr("/ip4/10.0.0.2/tcp/1")),
        (ids[0], addr("/ip4/10.0.0.1/tcp/2")),
    ];
    let grouped = group_peers(&rows);
    assert_eq!(grouped.iter().map(|g| g.addresses.len()).sum::<usize>(), rows.len());
    ids.sort();
    assert_eq!(grouped.len(), 3);
    for (entry, id) in grouped.iter().zip(ids.iter()) {
        assert_eq!(&entry.peer_id, id);
        let expected: Vec<Multiaddr> = rows.iter().filter(|r| &r.0 == id).map(|r| r.1.clone()).collect();
        assert_eq!(entry.addresses, expected);
    }
}

#[test]
fn grouping_no_rows_gives_no_peers() {
    assert!(group_peers(&Vec::new()).is_empty());
}

#[test]
fn lookup_gives_every_address_of_the_peer() {
    let a = PeerId::random();
    let b = PeerId::random();
    let rows = vec![
        (a, addr("/ip4/1.1.1.1/tcp/1")),
        (b, addr("/ip4/2.2.2.2/tcp/1")),
        (a, addr("/ip4/1.1.1.1/udp/5/quic-v1")),
    ];
    let info = peer_addresses(&rows, a);
    assert_eq!(info.peer_id, a);
    assert_eq!(info.addresses, vec![addr("/ip4/1.1.1.1/tcp/1"), addr("/ip4/1.1.1.1/udp/5/quic-v1")]);
    match get_peer_response(PeerId::random(), Ok(rows)) {
        ControlResponse::Peer(Some(info)) => assert!(info.addresses.is_empty()),
        other => panic!("{other:?}"),
    }
}

#[test]
fn load_errors_are_answered_as_errors() {
    match list_peers_response(Err("disk on fire".to_string())) {
        ControlResponse::Error(e) => assert_eq!(e, "disk on fire"),
        other => panic!("{other:?}"),
    }
    match get_peer_response(PeerId::random(), Err("locked".to_string())) {
        ControlResponse::Error(e) => assert_eq!(e, "locked"),
        other => panic!("{other:?}"),
    }
    match list_peers_response(Ok(vec![(PeerId::random(), addr("/ip4/9.9.9.9/tcp/9"))])) {
        ControlResponse::Peers(peers) => assert_eq!(peers.len(), 1),
        other => panic!("{other:?}"),
    }
}

#[test]
fn relay_reservation_answers() {
    assert!(matches!(relay_reservation_response(Ok(())), ControlResponse::MessageAck));
    match relay_reservation_response(Err("no transport".to_string())) {
        ControlResponse::Error(e) => assert_eq!(e, "no transport"),
        other => panic!("{other:?}"),
    }
}

#[test]
fn control_requests_are_planned() {
    let mut relay = RelayManager::new();
    let me = PeerId::random();
    let other = PeerId::random();
    assert!(matches!(handle_control_request(ControlRequest::ListPeers, &relay, me), ControlStep::ListStoredPeers));
    match handle_control_request(ControlRequest::GetPeer(other), &relay, me) {
        ControlStep::LookUpStoredPeer(p) => assert_eq!(p, other),
        step => panic!("{step:?}"),
    }
    match handle_control_request(ControlRequest::SendMessage(Message::Chat("x".into())), &relay, me) {
        ControlStep::Publish { message: Message::Chat(t), answer: ControlResponse::MessageAck } => assert_eq!(t, "x"),
        step => panic!("{step:?}"),
    }
    match handle_control_request(ControlRequest::SendDirect { peer_id: other, message: Message::Chat("y".into()) }, &relay, me) {
        ControlStep::SendDirect { peer_id, message: Message::Chat(t), answer: ControlResponse::MessageAck } => {
            assert_eq!(peer_id, other);
            assert_eq!(t, "y");
        }
        step => panic!("{step:?}"),
    }
    let relay_addr = addr("/ip4/5.5.5.5/tcp/4001/p2p-circuit");
    match handle_control_request(ControlRequest::ReserveRelay(relay_addr.clone()), &relay, me) {
        ControlStep::ReserveRelay(a) => assert_eq!(a, relay_addr),
        step => panic!("{step:?}"),
    }
    match handle_control_request(ControlRequest::GetLocalPeerId, &relay, me) {
        ControlStep::Respond(ControlResponse::LocalPeerId(p)) => assert_eq!(p, me),
        step => panic!("{step:?}"),
    }
    relay.reserve(other).unwrap();
    match handle_control_request(ControlRequest::GetRelayStatus, &relay, me) {
        ControlStep::Respond(ControlResponse::RelayStatus(RelayState::ClientReserved { relay_peer_id, .. })) => {
            assert_eq!(relay_peer_id, other)
        }
        step => panic!("{step:?}"),
    }
}
