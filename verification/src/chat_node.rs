//! The standalone chat node: what it does about the few swarm events it
//! handles.
use vstd::prelude::*;
use libp2p::{Multiaddr, PeerId};
use crate::p2p::log::{
    connection_line, connection_text, got_message_line, got_message_text, identified_line,
    identified_text, listening_line, listening_text,
};
use crate::services::peers::{lemma_routed_actions, lemma_routes_and_stores_each_address, routed_actions, saves_follow_routes, PeerAction, PeerActionView};
use crate::types::{clone_multiaddr, multiaddr_text, peer_id_text, peer_id_to_string, utf8_lossy_text};
use vstd::string::StringExecFns;

verus! {

/// A swarm event of the standalone chat node, as plain values.
#[derive(Debug)]
pub enum ChatEvent {
    /// A gossip message relayed by `peer_id`, with its raw payload.
    GossipMessage { peer_id: PeerId, data: Vec<u8> },
    /// Identify told us where a peer listens.
    IdentifyReceived { peer_id: PeerId, listen_addrs: Vec<Multiaddr> },
    /// A connection opened; `dialer` when we dialed it.
    ConnectionEstablished { peer_id: PeerId, dialer: bool, remote_address: Multiaddr },
    /// The node listens on a new address.
    NewListenAddr { address: Multiaddr },
    /// As a relay server, we accepted a peer's reservation.
    RelayServerAccepted { src_peer_id: PeerId },
    /// As a relay client, a relay accepted our reservation.
    RelayClientAccepted { relay_peer_id: PeerId },
    /// Anything else.
    Other,
}

/// What the chat node does about an event: peer actions, then lines to print.
#[derive(Debug)]
pub struct ChatReaction {
    pub actions: Vec<PeerAction>,
    pub lines: Vec<String>,
}

/// The chat node stores an address only right after routing to it.
pub proof fn lemma_chat_routes_before_storing(event: ChatEvent)
    ensures
        saves_follow_routes(chat_actions(event)),
{
    match event {
        ChatEvent::IdentifyReceived { peer_id, listen_addrs } => {
            lemma_routed_actions(peer_id, listen_addrs@);
        },
        _ => {},
    }
}

/// When Identify reports a peer's listen addresses, the chat node routes to and
/// stores every one of them, in the order reported (route, then store); no
/// other event touches its peers.
pub proof fn lemma_chat_routes_and_stores_each_address(event: ChatEvent)
    ensures
        match event {
            ChatEvent::IdentifyReceived { peer_id, listen_addrs } => {
                &&& chat_actions(event).len() == 2 * listen_addrs@.len()
                &&& forall|i: int| #![trigger listen_addrs@[i]] 0 <= i < listen_addrs@.len() ==> {
                    &&& chat_actions(event)[2 * i] == PeerActionView::AddPeerAddress(peer_id, listen_addrs@[i])
                    &&& chat_actions(event)[2 * i + 1] == PeerActionView::SavePeer(peer_id, listen_addrs@[i])
                }
            },
            _ => chat_actions(event).len() == 0,
        },
{
    match event {
        ChatEvent::IdentifyReceived { peer_id, listen_addrs } => {
            lemma_routes_and_stores_each_address(peer_id, listen_addrs@);
        },
        _ => {},
    }
}

/// Every event but an unhandled one prints exactly one line, naming what
/// happened and the peer or address involved; an unhandled one prints nothing.
pub proof fn lemma_chat_prints_one_line_per_event(event: ChatEvent)
    ensures
        match event {
            ChatEvent::GossipMessage { peer_id, data } => chat_lines(event) == seq![
                "Got message: '"@ + utf8_lossy_text(data@) + "' from peer: "@ + peer_id_text(peer_id),
            ],
            ChatEvent::IdentifyReceived { peer_id, .. } => chat_lines(event) == seq![
                "[Network] Successfully identified peer: "@ + peer_id_text(peer_id),
            ],
            ChatEvent::ConnectionEstablished { peer_id, dialer, remote_address } => chat_lines(event) == seq![
                "[Network] Raw TCP connection established ("@ + (if dialer { "Outbound"@ } else { "Inbound"@ })
                    + ") with: "@ + peer_id_text(peer_id) + " via "@ + multiaddr_text(remote_address),
            ],
            ChatEvent::NewListenAddr { address } => chat_lines(event) == seq![
                "Local node is listening on "@ + multiaddr_text(address),
            ],
            ChatEvent::RelayServerAccepted { src_peer_id } => chat_lines(event) == seq![
                "Relay server: Accepted reservation request from peer: "@ + peer_id_text(src_peer_id),
            ],
            ChatEvent::RelayClientAccepted { relay_peer_id } => chat_lines(event) == seq![
                "Relay client: Successfully registered reservation through proxy relay: "@
                    + peer_id_text(relay_peer_id),
            ],
            ChatEvent::Other => chat_lines(event).len() == 0,
        },
{
}

/// The peer actions that a chat event calls for.
pub open spec fn chat_actions(event: ChatEvent) -> Seq<PeerActionView> {
    match event {
        ChatEvent::IdentifyReceived { peer_id, listen_addrs } => routed_actions(peer_id, listen_addrs@),
        _ => Seq::empty(),
    }
}

/// The lines that a chat event prints.
pub open spec fn chat_lines(event: ChatEvent) -> Seq<Seq<char>> {
    match event {
        ChatEvent::GossipMessage { peer_id, data } => seq![got_message_text(peer_id, data@)],
        ChatEvent::IdentifyReceived { peer_id, .. } => seq![identified_text(peer_id)],
        ChatEvent::ConnectionEstablished { peer_id, dialer, remote_address } => seq![
            connection_text(peer_id, dialer, remote_address),
        ],
        ChatEvent::NewListenAddr { address } => seq![listening_text(address)],
        ChatEvent::RelayServerAccepted { src_peer_id } => seq![
            "Relay server: Accepted reservation request from peer: "@ + peer_id_text(src_peer_id),
        ],
        ChatEvent::RelayClientAccepted { relay_peer_id } => seq![
            "Relay client: Successfully registered reservation through proxy relay: "@
                + peer_id_text(relay_peer_id),
        ],
        ChatEvent::Other => Seq::empty(),
    }
}

/// What the chat node does about `event`.
pub fn handle_chat_event(event: ChatEvent) -> (reaction: ChatReaction)
    ensures
        reaction.actions@.map_values(|a: PeerAction| a@) == chat_actions(event),
        reaction.lines@.map_values(|s: String| s@) == chat_lines(event),
{
    let ghost the_event = event;
    let mut actions: Vec<PeerAction> = Vec::new();
    let mut lines: Vec<String> = Vec::new();
    match event {
        ChatEvent::GossipMessage { peer_id, data } => {
            lines.push(got_message_line(&peer_id, data.as_slice()));
        },
        ChatEvent::IdentifyReceived { peer_id, listen_addrs } => {
            let mut k: usize = 0;
            assert(actions@.map_values(|a: PeerAction| a@) =~= routed_actions(peer_id, listen_addrs@.subrange(0, 0)));
            while k < listen_addrs.len()
                invariant
                    k <= listen_addrs@.len(),
                    actions@.map_values(|a: PeerAction| a@) == routed_actions(peer_id, listen_addrs@.subrange(0, k as int)),
                decreases listen_addrs@.len() - k,
            {
                actions.push(PeerAction::AddPeerAddress(peer_id, clone_multiaddr(&listen_addrs[k])));
                actions.push(PeerAction::SavePeer(peer_id, clone_multiaddr(&listen_addrs[k])));
                assert(listen_addrs@.subrange(0, k + 1).drop_last() =~= listen_addrs@.subrange(0, k as int));
                assert(actions@.map_values(|a: PeerAction| a@) =~= routed_actions(peer_id, listen_addrs@.subrange(0, k + 1)));
                k = k + 1;
            }
            assert(listen_addrs@.subrange(0, listen_addrs@.len() as int) =~= listen_addrs@);
            lines.push(identified_line(&peer_id));
        },
        ChatEvent::ConnectionEstablished { peer_id, dialer, remote_address } => {
            lines.push(connection_line(&peer_id, dialer, &remote_address));
        },
        ChatEvent::NewListenAddr { address } => {
            lines.push(listening_line(&address));
        },
        ChatEvent::RelayServerAccepted { src_peer_id } => {
            let mut line = "Relay server: Accepted reservation request from peer: ".to_owned();
            line.append(peer_id_to_string(&src_peer_id).as_str());
            lines.push(line);
        },
        ChatEvent::RelayClientAccepted { relay_peer_id } => {
            let mut line = "Relay client: Successfully registered reservation through proxy relay: ".to_owned();
            line.append(peer_id_to_string(&relay_peer_id).as_str());
            lines.push(line);
        },
        ChatEvent::Other => {},
    }
    assert(lines@.map_values(|s: String| s@) =~= chat_lines(the_event));
    assert(actions@.map_values(|a: PeerAction| a@) =~= chat_actions(the_event));
    ChatReaction { actions, lines }
}

} // verus!
