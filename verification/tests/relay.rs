use libp2p::PeerId;
use p2p_tunnel::p2p::relay::{RelayClientEvent, RelayManager, RelayServerEvent, RelayState};

fn random_peer_id() -> PeerId {
    PeerId::random()
}

#[test]
fn relay_manager_transitions_to_client_reserved() {
    let mut manager = RelayManager::new();
    let relay_id = random_peer_id();

    assert!(matches!(manager.status(), RelayState::Unavailable));

    manager.reserve(relay_id.clone()).expect("reserve should succeed");

    assert!(matches!(manager.status(), RelayState::ClientReserved { .. }));

    if let RelayState::ClientReserved { relay_peer_id, .. } = manager.status() {
        assert_eq!(relay_peer_id, &relay_id);
    } else {
        panic!("Expected ClientReserved state");
    }
}

#[test]
fn relay_manager_handles_client_reservation_event() {
    let mut manager = RelayManager::new();
    let relay_id = random_peer_id();
    let event = RelayClientEvent::ReservationReqAccepted {
        relay_peer_id: relay_id.clone(),
        renewal: false,
    };

    manager.handle_client_event(event);

    assert!(matches!(manager.status(), RelayState::ClientReserved { .. }));
    assert_eq!(manager.reservations().len(), 1);
    assert_eq!(&manager.reservations()[0].relay_peer_id, &relay_id);
}

#[test]
fn relay_manager_handles_server_reservation_denied() {
    let mut manager = RelayManager::new();
    let peer_id = random_peer_id();

    manager.handle_server_event(RelayServerEvent::ReservationReqDenied { src_peer_id: peer_id });

    assert!(matches!(manager.status(), RelayState::Unavailable));
}

#[test]
fn reserve_keeps_recorded_reservations() {
    let mut manager = RelayManager::new();
    let first = random_peer_id();
    let second = random_peer_id();
    manager.handle_client_event(RelayClientEvent::ReservationReqAccepted { relay_peer_id: first, renewal: false });
    manager.reserve(second).unwrap();
    assert_eq!(manager.reservations().len(), 1);
    assert_eq!(manager.reservations()[0].relay_peer_id, first);
    assert!(manager.reservations()[0].expires_at.is_none());
    assert!(manager.reservations()[0].addresses.is_empty());
    match manager.status() {
        RelayState::ClientReserved { relay_peer_id, expires_at } => {
            assert_eq!(*relay_peer_id, second);
            assert!(expires_at.is_none());
        }
        other => panic!("unexpected state {other:?}"),
    }
}

#[test]
fn release_forgets_everything() {
    let mut manager = RelayManager::new();
    manager.handle_client_event(RelayClientEvent::ReservationReqAccepted { relay_peer_id: random_peer_id(), renewal: false });
    manager.handle_client_event(RelayClientEvent::ReservationReqAccepted { relay_peer_id: random_peer_id(), renewal: true });
    assert_eq!(manager.reservations().len(), 2);
    manager.release();
    assert!(matches!(manager.status(), RelayState::Unavailable));
    assert!(manager.reservations().is_empty());
}

#[test]
fn server_events_move_the_state_only() {
    let mut manager = RelayManager::new();
    let peer = random_peer_id();
    manager.handle_client_event(RelayClientEvent::ReservationReqAccepted { relay_peer_id: peer, renewal: false });
    manager.handle_server_event(RelayServerEvent::ReservationReqAccepted { src_peer_id: random_peer_id(), renewed: false });
    assert!(matches!(manager.status(), RelayState::ServerAvailable));
    manager.handle_server_event(RelayServerEvent::Other);
    assert!(matches!(manager.status(), RelayState::ServerAvailable));
    manager.handle_server_event(RelayServerEvent::ReservationTimedOut { src_peer_id: random_peer_id() });
    assert!(matches!(manager.status(), RelayState::Unavailable));
    assert_eq!(manager.reservations().len(), 1);
}

#[test]
fn circuit_events_leave_the_manager_alone() {
    let mut manager = RelayManager::new();
    manager.handle_client_event(RelayClientEvent::OutboundCircuitEstablished { relay_peer_id: random_peer_id() });
    manager.handle_client_event(RelayClientEvent::InboundCircuitEstablished { src_peer_id: random_peer_id() });
    assert!(matches!(manager.status(), RelayState::Unavailable));
    assert!(manager.reservations().is_empty());
}
