//! Which saved addresses are worth dialing, and which peer a bootstrap
//! address names.
use vstd::prelude::*;
use libp2p::{Multiaddr, PeerId};
use crate::text::{chars_of, contains_text, text_contains};
use crate::types::{clone_multiaddr, multiaddr_components, multiaddr_parts, multiaddr_text, multiaddr_to_string, AddrComponent};

verus! {

/// A saved address is usable unless it is a relay circuit address that does
/// not name the peer behind the relay.
pub open spec fn usable_addr_text(text: Seq<char>) -> bool {
    !(text_contains(text, "/p2p-circuit"@) && !text_contains(text, "/p2p/"@))
}

/// The peer that the last component of an address names, if it names one.
pub open spec fn trailing_peer(parts: Seq<AddrComponent>) -> Option<PeerId> {
    if parts.len() == 0 {
        None
    } else {
        match parts.last() {
            AddrComponent::P2p(peer_id) => Some(peer_id),
            AddrComponent::Other => None,
        }
    }
}

/// Whether the written form `text` of a saved address is usable.
pub fn is_usable_addr_text(text: &str) -> (usable: bool)
    ensures
        usable == usable_addr_text(text@),
{
    let chars = chars_of(text);
    let circuit = chars_of("/p2p-circuit");
    let p2p = chars_of("/p2p/");
    !(contains_text(&chars, &circuit) && !contains_text(&chars, &p2p))
}

/// Whether a saved address is usable: not a relay circuit address that lacks
/// the `/p2p/` component of its destination.
pub fn is_usable_saved_addr(addr: &Multiaddr) -> (usable: bool)
    ensures
        usable == usable_addr_text(multiaddr_text(*addr)),
{
    let text = multiaddr_to_string(addr);
    is_usable_addr_text(text.as_str())
}

/// The peer named by the last of `parts`, if it is a `/p2p/` component.
pub fn trailing_peer_id(parts: &Vec<AddrComponent>) -> (peer_id: Option<PeerId>)
    ensures
        peer_id == trailing_peer(parts@),
{
    if parts.len() == 0 {
        return None;
    }
    match parts[parts.len() - 1] {
        AddrComponent::P2p(peer_id) => Some(peer_id),
        AddrComponent::Other => None,
    }
}

/// The peer that a bootstrap address names in its trailing `/p2p/` component.
pub fn bootstrap_peer_id(addr: &Multiaddr) -> (peer_id: Option<PeerId>)
    ensures
        peer_id == trailing_peer(multiaddr_parts(*addr)),
{
    let parts = multiaddr_components(addr);
    trailing_peer_id(&parts)
}

/// The saved peers whose address is usable, in their order.
pub open spec fn usable_peers(peers: Seq<(PeerId, Multiaddr)>) -> Seq<(PeerId, Multiaddr)>
    decreases peers.len(),
{
    if peers.len() == 0 {
        Seq::empty()
    } else {
        let earlier = usable_peers(peers.drop_last());
        if usable_addr_text(multiaddr_text(peers.last().1)) {
            earlier.push(peers.last())
        } else {
            earlier
        }
    }
}

/// The saved peers kept for routing are exactly the saved peers whose address
/// is usable, in their order.
pub proof fn lemma_usable_peers_are_the_usable_ones(peers: Seq<(PeerId, Multiaddr)>)
    ensures
        usable_peers(peers) == peers.filter(|p: (PeerId, Multiaddr)| usable_addr_text(multiaddr_text(p.1))),
    decreases peers.len(),
{
    reveal(Seq::filter);
    if peers.len() > 0 {
        lemma_usable_peers_are_the_usable_ones(peers.drop_last());
    }
}

/// The saved peers worth routing to on start-up: those whose address is usable.
pub fn usable_saved_peers(peers: &Vec<(PeerId, Multiaddr)>) -> (usable: Vec<(PeerId, Multiaddr)>)
    ensures
        usable@ == usable_peers(peers@),
{
    let mut usable: Vec<(PeerId, Multiaddr)> = Vec::new();
    let mut k: usize = 0;
    while k < peers.len()
        invariant
            k <= peers@.len(),
            usable@ == usable_peers(peers@.subrange(0, k as int)),
        decreases peers@.len() - k,
    {
        assert(peers@.subrange(0, k + 1).drop_last() =~= peers@.subrange(0, k as int));
        if is_usable_saved_addr(&peers[k].1) {
            usable.push((peers[k].0, clone_multiaddr(&peers[k].1)));
        }
        k = k + 1;
    }
    assert(peers@.subrange(0, peers@.len() as int) =~= peers@);
    usable
}

} // verus!
