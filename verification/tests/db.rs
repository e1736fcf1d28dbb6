use libp2p::{Multiaddr, PeerId};
use p2p_tunnel::db::{decode_peer_rows, peer_row};

#[test]
fn rows_read_back() {
    let p = PeerId::random();
    let a: Multiaddr = "/ip4/10.1.1.1/tcp/4001".parse().unwrap();
    let row = peer_row(&p, &a);
    assert_eq!(row.0, p.to_string());
    assert_eq!(row.1, "/ip4/10.1.1.1/tcp/4001");
    let decoded = decode_peer_rows(&vec![row.clone()]);
    assert_eq!(decoded, vec![(p, a.clone())]);
}

#[test]
fn unreadable_rows_are_skipped() {
    let p = PeerId::random();
    let q = PeerId::random();
    let rows = vec![
        (p.to_string(), "/ip4/1.1.1.1/tcp/1".to_string()),
        ("not-a-peer".to_string(), "/ip4/1.1.1.1/tcp/1".to_string()),
        (q.to_string(), "garbage".to_string()),
        (q.to_string(), "/ip4/2.2.2.2/tcp/2".to_string()),
    ];
    let decoded = decode_peer_rows(&rows);
    assert_eq!(decoded.len(), 2);
    assert_eq!(decoded[0].0, p);
    assert_eq!(decoded[1], (q, "/ip4/2.2.2.2/tcp/2".parse().unwrap()));
}

#[test]
fn saved_peers_read_back_in_order() {
    let p = PeerId::random();
    let q = PeerId::random();
    let peers: Vec<(PeerId, Multiaddr)> = vec![
        (p, "/ip4/10.1.1.1/tcp/4001".parse().unwrap()),
        (q, "/ip4/10.1.1.2/udp/4001/quic-v1".parse().unwrap()),
        (p, "/dns4/example.org/tcp/443".parse().unwrap()),
    ];
    let rows: Vec<(String, String)> = peers.iter().map(|(id, a)| peer_row(id, a)).collect();
    assert_eq!(decode_peer_rows(&rows), peers);
}
