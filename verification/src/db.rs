//! The rows of the peer table kept on disk: each row holds a peer id and an
//! address in their written forms.
use vstd::prelude::*;
use libp2p::{Multiaddr, PeerId};
use crate::types::{
    multiaddr_from_text, multiaddr_text, peer_id_eq, multiaddr_to_string, parse_multiaddr, parse_peer_id,
    peer_id_from_text, peer_id_text, peer_id_to_string,
};

verus! {

/// The texts of stored rows.
pub open spec fn row_texts(rows: Seq<(String, String)>) -> Seq<(Seq<char>, Seq<char>)> {
    rows.map_values(|r: (String, String)| (r.0@, r.1@))
}

/// The peers that stored rows hold: each row whose peer id and address both
/// read back, in row order; a row that does not read back is skipped.
pub open spec fn peers_from_rows(rows: Seq<(Seq<char>, Seq<char>)>) -> Seq<(PeerId, Multiaddr)>
    decreases rows.len(),
{
    if rows.len() == 0 {
        Seq::empty()
    } else {
        let earlier = peers_from_rows(rows.drop_last());
        match (peer_id_from_text(rows.last().0), multiaddr_from_text(rows.last().1)) {
            (Some(peer_id), Ok(addr)) => earlier.push((peer_id, addr)),
            _ => earlier,
        }
    }
}

/// Whether `row` holds what [`peer_row`] writes for `peer`: the peer id's text
/// and the address's text, where the peer id's text reads back as a peer id `==`
/// to it.
pub open spec fn is_row_of(row: (Seq<char>, Seq<char>), peer: (PeerId, Multiaddr)) -> bool {
    &&& row.0 == peer_id_text(peer.0)
    &&& row.1 == multiaddr_text(peer.1)
    &&& peer_id_from_text(row.0) is Some
    &&& peer_id_eq(peer_id_from_text(row.0)->0, peer.0)
}

/// The row under which a peer's address is stored: the peer id's text and the
/// address's text.
pub fn peer_row(peer_id: &PeerId, addr: &Multiaddr) -> (row: (String, String))
    ensures
        is_row_of((row.0@, row.1@), (*peer_id, *addr)),
{
    (peer_id_to_string(peer_id), multiaddr_to_string(addr))
}

/// The peers held by the stored `rows`; see [`peers_from_rows`].
pub fn decode_peer_rows(rows: &Vec<(String, String)>) -> (peers: Vec<(PeerId, Multiaddr)>)
    ensures
        peers@ == peers_from_rows(row_texts(rows@)),
{
    let mut peers: Vec<(PeerId, Multiaddr)> = Vec::new();
    let mut k: usize = 0;
    while k < rows.len()
        invariant
            k <= rows@.len(),
            peers@ == peers_from_rows(row_texts(rows@.subrange(0, k as int))),
        decreases rows@.len() - k,
    {
        let ghost done = rows@.subrange(0, k as int);
        assert(row_texts(rows@.subrange(0, k + 1)).drop_last() =~= row_texts(done));
        let peer_text = rows[k].0.as_str();
        let addr_text = rows[k].1.as_str();
        match (parse_peer_id(peer_text), parse_multiaddr(addr_text)) {
            (Some(peer_id), Ok(addr)) => peers.push((peer_id, addr)),
            _ => {},
        }
        k = k + 1;
    }
    assert(rows@.subrange(0, rows@.len() as int) =~= rows@);
    peers
}

/// Rows written by [`peer_row`] for a list of peers read back as that list, in
/// order: each peer id `==` to the one written and each address the same one,
/// wherever the address's text reads back as the address.
pub proof fn lemma_saved_peers_read_back(peers: Seq<(PeerId, Multiaddr)>, rows: Seq<(Seq<char>, Seq<char>)>)
    requires
        rows.len() == peers.len(),
        forall|i: int| 0 <= i < rows.len() ==> is_row_of(#[trigger] rows[i], peers[i]),
        forall|i: int| 0 <= i < peers.len()
            ==> multiaddr_from_text(multiaddr_text(#[trigger] peers[i].1)) == Ok::<Multiaddr, libp2p::multiaddr::Error>(peers[i].1),
    ensures
        peers_from_rows(rows).len() == peers.len(),
        forall|i: int| 0 <= i < peers.len() ==> peer_id_eq(#[trigger] peers_from_rows(rows)[i].0, peers[i].0)
            && peers_from_rows(rows)[i].1 == peers[i].1,
    decreases rows.len(),
{
    if rows.len() > 0 {
        let n = rows.len() - 1;
        assert(is_row_of(rows[n], peers[n]));
        assert(multiaddr_from_text(multiaddr_text(peers[n].1)) == Ok::<Multiaddr, libp2p::multiaddr::Error>(peers[n].1));
        lemma_saved_peers_read_back(peers.drop_last(), rows.drop_last());
        let earlier = peers_from_rows(rows.drop_last());
        assert forall|i: int| 0 <= i < peers.len() implies peer_id_eq(#[trigger] peers_from_rows(rows)[i].0, peers[i].0)
            && peers_from_rows(rows)[i].1 == peers[i].1 by {
            if i < n {
                assert(peers_from_rows(rows)[i] == earlier[i]);
                assert(peers.drop_last()[i] == peers[i]);
            }
        }
    }
}

} // verus!
