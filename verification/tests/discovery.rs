use libp2p::{Multiaddr, PeerId};
use p2p_tunnel::p2p::discovery::{
    bootstrap_peer_id, is_usable_addr_text, is_usable_saved_addr, trailing_peer_id, usable_saved_peers,
};
use p2p_tunnel::p2p::swarm::{bootstrap_target, entry_point_line, listen_addresses, BootstrapError, BootstrapRole};
use p2p_tunnel::types::AddrComponent;

#[test]
fn circuit_addresses_need_a_destination() {
    let relay = PeerId::random();
    let dest = PeerId::random();
    let plain: Multiaddr = "/ip4/127.0.0.1/tcp/8500".parse().unwrap();
    let bare_circuit: Multiaddr = format!("/ip4/1.2.3.4/tcp/1/p2p/{relay}/p2p-circuit").parse().unwrap();
    let full_circuit: Multiaddr = format!("/ip4/1.2.3.4/tcp/1/p2p/{relay}/p2p-circuit/p2p/{dest}").parse().unwrap();
    assert!(is_usable_saved_addr(&plain));
    assert!(is_usable_saved_addr(&bare_circuit));
    assert!(is_usable_saved_addr(&full_circuit));
    let no_peer_circuit: Multiaddr = "/ip4/1.2.3.4/tcp/1/p2p-circuit".parse().unwrap();
    assert!(!is_usable_saved_addr(&no_peer_circuit));
    assert!(is_usable_addr_text("/ip4/1.2.3.4/tcp/1"));
    assert!(!is_usable_addr_text("/p2p-circuit"));
    assert!(is_usable_addr_text("/p2p-circuit/p2p/x"));
    assert!(is_usable_addr_text(""));
}

#[test]
fn bootstrap_peer_is_the_trailing_component() {
    let peer = PeerId::random();
    let addr: Multiaddr = format!("/ip4/127.0.0.1/tcp/8500/p2p/{peer}").parse().unwrap();
    assert_eq!(bootstrap_peer_id(&addr), Some(peer));
    let no_peer: Multiaddr = "/ip4/127.0.0.1/tcp/8500".parse().unwrap();
    assert_eq!(bootstrap_peer_id(&no_peer), None);
    let inner: Multiaddr = format!("/p2p/{peer}/ip4/127.0.0.1").parse().unwrap();
    assert_eq!(bootstrap_peer_id(&inner), None);
    assert_eq!(bootstrap_peer_id(&Multiaddr::empty()), None);
    assert_eq!(trailing_peer_id(&vec![AddrComponent::Other, AddrComponent::P2p(peer)]), Some(peer));
    assert_eq!(trailing_peer_id(&vec![AddrComponent::P2p(peer), AddrComponent::Other]), None);
}

#[test]
fn bootstrap_modes() {
    assert!(matches!(bootstrap_target(None), Ok(BootstrapRole::NoBootstrap)));
    assert!(matches!(bootstrap_target(Some("bootstrap")), Ok(BootstrapRole::EntryPoint)));
    assert_eq!(entry_point_line(), "Node is running as the Bootstrap point");
    match bootstrap_target(Some("not an address")) {
        Err(BootstrapError::InvalidAddress(e)) => {
            let expected = "not an address".parse::<Multiaddr>().unwrap_err();
            assert_eq!(e.to_string(), expected.to_string());
        }
        other => panic!("{other:?}"),
    }
    assert!(matches!(bootstrap_target(Some("/ip4/127.0.0.1/tcp/8500")), Err(BootstrapError::MissingPeerId)));
    let peer = PeerId::random();
    let text = format!("/ip4/127.0.0.1/udp/8500/quic-v1/p2p/{peer}");
    match bootstrap_target(Some(&text)) {
        Ok(BootstrapRole::Dial(target)) => {
            assert_eq!(target.peer_id, peer);
            assert_eq!(target.addr, text.parse::<Multiaddr>().unwrap());
        }
        other => panic!("{other:?}"),
    }
}

#[test]
fn listen_addresses_for_port() {
    let (tcp, quic) = listen_addresses("0.0.0.0", 8500).unwrap();
    assert_eq!(tcp.to_string(), "/ip4/0.0.0.0/tcp/8500");
    assert_eq!(quic.to_string(), "/ip4/0.0.0.0/udp/8500/quic-v1");
    let (tcp, _) = listen_addresses("127.0.0.1", 0).unwrap();
    assert_eq!(tcp.to_string(), "/ip4/127.0.0.1/tcp/0");
    assert!(listen_addresses("127.0.0.1", -1).is_err());
    let err = listen_addresses("127.0.0.1", 70000).unwrap_err();
    let expected = "/ip4/127.0.0.1/tcp/70000".parse::<Multiaddr>().unwrap_err();
    assert_eq!(err.to_string(), expected.to_string());
}

#[test]
fn saved_peers_keep_only_usable_addresses() {
    let relay = PeerId::random();
    let a = PeerId::random();
    let b = PeerId::random();
    let plain: Multiaddr = "/ip4/10.0.0.1/tcp/4001".parse().unwrap();
    let dangling: Multiaddr = format!("/ip4/1.2.3.4/tcp/1/p2p/{relay}/p2p-circuit").parse().unwrap();
    let no_peer: Multiaddr = "/ip4/1.2.3.4/tcp/1/p2p-circuit".parse().unwrap();
    let saved = vec![(a, plain.clone()), (b, no_peer), (b, dangling.clone())];
    let usable = usable_saved_peers(&saved);
    assert_eq!(usable, vec![(a, plain), (b, dangling)]);
    assert!(usable_saved_peers(&Vec::new()).is_empty());
}
