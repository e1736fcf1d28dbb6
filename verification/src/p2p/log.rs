//! The text of the node's log lines.
use vstd::prelude::*;
use libp2p::PeerId;
use crate::p2p::events::{NodeLog, ReceiveContext};
use crate::protocol::message::{Message, MessageView};
use crate::text::{decimal, push_decimal};
use libp2p::Multiaddr;
use crate::types::{
    debug_list, debug_list_text, multiaddr_text, multiaddr_to_string, peer_id_text, peer_id_to_string,
    utf8_lossy, utf8_lossy_text,
};
use vstd::string::StringExecFns;

verus! {

/// A log line: its text, and whether it goes to standard error.
#[derive(Debug)]
pub struct LogLine {
    pub text: String,
    pub to_stderr: bool,
}

/// How the source of a received message is named.
pub open spec fn context_text(context: ReceiveContext) -> Seq<char> {
    match context {
        ReceiveContext::GossipMesh => "Gossip Mesh Network"@,
        ReceiveContext::DirectPointToPoint => "Direct Point-To-Point"@,
        ReceiveContext::DirectReceipt => "Direct Receipt Confirmation"@,
    }
}

/// The line that reports a received application message.
pub open spec fn received_text(context: ReceiveContext, peer_id: PeerId, message: MessageView) -> Seq<char> {
    let head = " ["@ + peer_id_text(peer_id) + "] ("@ + context_text(context);
    match message {
        MessageView::Chat(text) => head + " - Chat): "@ + text,
        MessageView::FileChunk { file_name, chunk_index, data } => head + " - File) Chunk "@
            + decimal(chunk_index as nat) + " for '"@ + file_name + "' ("@ + decimal(data.len())
            + " bytes)"@,
        MessageView::PeerInfo { alias, capabilities } => head + " - Metadata) Node: "@ + alias
            + ", Specs: "@ + debug_list_text(capabilities),
        MessageView::ServiceDiscovery { service_type } => head
            + " - Discovery) Target scan type: "@ + service_type,
        MessageView::RPC { method, params } => head + " - RPC) Executing method '"@ + method
            + "' args: "@ + debug_list_text(params),
    }
}

/// The line that reports a new connection.
pub open spec fn connection_text(peer_id: PeerId, outbound: bool, remote_address: Multiaddr) -> Seq<char> {
    "[Network] Raw TCP connection established ("@ + (if outbound { "Outbound"@ } else { "Inbound"@ })
        + ") with: "@ + peer_id_text(peer_id) + " via "@ + multiaddr_text(remote_address)
}

/// The line that reports a peer that Identify described.
pub open spec fn identified_text(peer_id: PeerId) -> Seq<char> {
    "[Network] Successfully identified peer: "@ + peer_id_text(peer_id)
}

/// The line that reports a new listen address.
pub open spec fn listening_text(address: Multiaddr) -> Seq<char> {
    "Local node is listening on "@ + multiaddr_text(address)
}

/// The line that reports a gossip message given as raw bytes.
pub open spec fn got_message_text(peer_id: PeerId, data: Seq<u8>) -> Seq<char> {
    "Got message: '"@ + utf8_lossy_text(data) + "' from peer: "@ + peer_id_text(peer_id)
}

/// The text of a log line.
pub open spec fn log_text(log: NodeLog) -> Seq<char> {
    match log {
        NodeLog::Received { context, peer_id, message } => received_text(context, peer_id, message@),
        NodeLog::GotMessage { peer_id, data } => got_message_text(peer_id, data@),
        NodeLog::Identified { peer_id } => identified_text(peer_id),
        NodeLog::Subscribed { peer_id, topic } => "Gossipsub: peer "@ + peer_id_text(peer_id)
            + " subscribed to "@ + topic@,
        NodeLog::Unsubscribed { peer_id, topic } => "Gossipsub: peer "@ + peer_id_text(peer_id)
            + " unsubscribed from "@ + topic@,
        NodeLog::MdnsDiscovered { peer_id, addr } => "mDNS discovered peer "@ + peer_id_text(peer_id)
            + " at "@ + multiaddr_text(addr),
        NodeLog::HolePunchSucceeded { peer_id } => "==> Hole punch succeeded with peer: "@
            + peer_id_text(peer_id) + "!"@,
        NodeLog::HolePunchFailed { peer_id, reason } => "==> Hole punch failed with peer "@
            + peer_id_text(peer_id) + ". Reason: "@ + reason@,
        NodeLog::ConnectionEstablished { peer_id, outbound, remote_address } =>
            connection_text(peer_id, outbound, remote_address),
        NodeLog::ConnectionClosed { peer_id } => "    Connection closed with: "@ + peer_id_text(peer_id),
        NodeLog::DialFailed { peer_id, error } => match peer_id {
            Some(p) => "Dial failed for peer "@ + peer_id_text(p) + ": "@ + error@,
            None => "Dial failed: "@ + error@,
        },
        NodeLog::Listening { address } => listening_text(address),
        NodeLog::Dialing { peer_id } => "Dialing peer "@ + peer_id_text(peer_id),
        NodeLog::RelayOutboundCircuit { relay_peer_id } =>
            "Relay client outbound circuit established through relay: "@ + peer_id_text(relay_peer_id),
        NodeLog::RelayInboundCircuit { src_peer_id } =>
            "Relay client inbound circuit established from: "@ + peer_id_text(src_peer_id),
        NodeLog::RelayReservationAccepted { src_peer_id } =>
            "Relay server accepted reservation request from "@ + peer_id_text(src_peer_id),
        NodeLog::RelayReservationDenied { src_peer_id } =>
            "Relay server denied reservation from "@ + peer_id_text(src_peer_id),
        NodeLog::RelayReservationTimedOut { src_peer_id } =>
            "Relay server reservation timed out for "@ + peer_id_text(src_peer_id),
    }
}

/// Whether a log line reports a failure, and so goes to standard error.
pub open spec fn log_is_error(log: NodeLog) -> bool {
    match log {
        NodeLog::HolePunchFailed { .. } => true,
        NodeLog::DialFailed { .. } => true,
        NodeLog::RelayReservationDenied { .. } => true,
        _ => false,
    }
}

/// The node's lines for what the README lists, and for received chat: a new
/// connection, an identified peer, a gossip payload and a new listen address
/// each get the README's line naming the peer or address; a received chat
/// message is shown with its sender, where it came from and its text. Only
/// failed hole punches, failed dials and denied relay reservations go to
/// standard error.
pub proof fn lemma_log_lines(log: NodeLog)
    ensures
        match log {
            NodeLog::ConnectionEstablished { peer_id, outbound, remote_address } => log_text(log)
                == "[Network] Raw TCP connection established ("@ + (if outbound { "Outbound"@ } else { "Inbound"@ })
                + ") with: "@ + peer_id_text(peer_id) + " via "@ + multiaddr_text(remote_address),
            NodeLog::Identified { peer_id } => log_text(log)
                == "[Network] Successfully identified peer: "@ + peer_id_text(peer_id),
            NodeLog::GotMessage { peer_id, data } => log_text(log)
                == "Got message: '"@ + utf8_lossy_text(data@) + "' from peer: "@ + peer_id_text(peer_id),
            NodeLog::Listening { address } => log_text(log) == "Local node is listening on "@ + multiaddr_text(address),
            NodeLog::Received { context, peer_id, message: Message::Chat(text) } => log_text(log)
                == " ["@ + peer_id_text(peer_id) + "] ("@ + match context {
                    ReceiveContext::GossipMesh => "Gossip Mesh Network"@,
                    ReceiveContext::DirectPointToPoint => "Direct Point-To-Point"@,
                    ReceiveContext::DirectReceipt => "Direct Receipt Confirmation"@,
                } + " - Chat): "@ + text@,
            _ => true,
        },
        log_is_error(log) <==> (log is HolePunchFailed || log is DialFailed || log is RelayReservationDenied),
{
}

/// The line that reports `message`, received from `peer_id` by way of `context`.
pub fn display_received_message(context: ReceiveContext, peer_id: &PeerId, message: &Message) -> (line: String)
    ensures
        line@ == received_text(context, *peer_id, message@),
{
    let mut line = " [".to_owned();
    line.append(peer_id_to_string(peer_id).as_str());
    line.append("] (");
    match context {
        ReceiveContext::GossipMesh => line.append("Gossip Mesh Network"),
        ReceiveContext::DirectPointToPoint => line.append("Direct Point-To-Point"),
        ReceiveContext::DirectReceipt => line.append("Direct Receipt Confirmation"),
    }
    let ghost head = line@;
    match message {
        Message::Chat(text) => {
            line.append(" - Chat): ");
            line.append(text.as_str());
        },
        Message::FileChunk { file_name, chunk_index, data } => {
            line.append(" - File) Chunk ");
            push_decimal(&mut line, *chunk_index);
            line.append(" for '");
            line.append(file_name.as_str());
            line.append("' (");
            push_decimal(&mut line, data.len() as u64);
            line.append(" bytes)");
        },
        Message::PeerInfo { alias, capabilities } => {
            line.append(" - Metadata) Node: ");
            line.append(alias.as_str());
            line.append(", Specs: ");
            line.append(debug_list(capabilities).as_str());
        },
        Message::ServiceDiscovery { service_type } => {
            line.append(" - Discovery) Target scan type: ");
            line.append(service_type.as_str());
        },
        Message::RPC { method, params } => {
            line.append(" - RPC) Executing method '");
            line.append(method.as_str());
            line.append("' args: ");
            line.append(debug_list(params).as_str());
        },
    }
    assert(line@ =~= received_text(context, *peer_id, message@));
    line
}

/// The line that reports a new connection.
pub fn connection_line(peer_id: &PeerId, outbound: bool, remote_address: &Multiaddr) -> (line: String)
    ensures
        line@ == connection_text(*peer_id, outbound, *remote_address),
{
    let mut text = "[Network] Raw TCP connection established (".to_owned();
    if outbound {
        text.append("Outbound");
    } else {
        text.append("Inbound");
    }
    text.append(") with: ");
    text.append(peer_id_to_string(peer_id).as_str());
    text.append(" via ");
    text.append(multiaddr_to_string(remote_address).as_str());
    text
}

/// The line that reports a peer that Identify described.
pub fn identified_line(peer_id: &PeerId) -> (line: String)
    ensures
        line@ == identified_text(*peer_id),
{
    let mut text = "[Network] Successfully identified peer: ".to_owned();
    text.append(peer_id_to_string(peer_id).as_str());
    text
}

/// The line that reports a new listen address.
pub fn listening_line(address: &Multiaddr) -> (line: String)
    ensures
        line@ == listening_text(*address),
{
    let mut text = "Local node is listening on ".to_owned();
    text.append(multiaddr_to_string(address).as_str());
    text
}

/// The line that reports a gossip message given as raw bytes.
pub fn got_message_line(peer_id: &PeerId, data: &[u8]) -> (line: String)
    ensures
        line@ == got_message_text(*peer_id, data@),
{
    let mut text = "Got message: '".to_owned();
    text.append(utf8_lossy(data).as_str());
    text.append("' from peer: ");
    text.append(peer_id_to_string(peer_id).as_str());
    text
}

/// `prefix`, then the text of `peer_id`, then `suffix`.
fn around_peer(prefix: &str, peer_id: &PeerId, suffix: &str) -> (text: String)
    ensures
        text@ == prefix@ + peer_id_text(*peer_id) + suffix@,
{
    let mut text = prefix.to_owned();
    text.append(peer_id_to_string(peer_id).as_str());
    text.append(suffix);
    text
}

/// The line to log for `log`, and where it goes.
pub fn render_log(log: &NodeLog) -> (line: LogLine)
    ensures
        line.text@ == log_text(*log),
        line.to_stderr == log_is_error(*log),
{
    let (text, to_stderr) = match log {
        NodeLog::Received { context, peer_id, message } => {
            (display_received_message(*context, peer_id, message), false)
        },
        NodeLog::GotMessage { peer_id, data } => (got_message_line(peer_id, data.as_slice()), false),
        NodeLog::Identified { peer_id } => (identified_line(peer_id), false),
        NodeLog::Subscribed { peer_id, topic } => {
            let mut text = around_peer("Gossipsub: peer ", peer_id, " subscribed to ");
            text.append(topic.as_str());
            (text, false)
        },
        NodeLog::Unsubscribed { peer_id, topic } => {
            let mut text = around_peer("Gossipsub: peer ", peer_id, " unsubscribed from ");
            text.append(topic.as_str());
            (text, false)
        },
        NodeLog::MdnsDiscovered { peer_id, addr } => {
            let mut text = around_peer("mDNS discovered peer ", peer_id, " at ");
            text.append(multiaddr_to_string(addr).as_str());
            (text, false)
        },
        NodeLog::HolePunchSucceeded { peer_id } => {
            (around_peer("==> Hole punch succeeded with peer: ", peer_id, "!"), false)
        },
        NodeLog::HolePunchFailed { peer_id, reason } => {
            let mut text = around_peer("==> Hole punch failed with peer ", peer_id, ". Reason: ");
            text.append(reason.as_str());
            (text, true)
        },
        NodeLog::ConnectionEstablished { peer_id, outbound, remote_address } => {
            (connection_line(peer_id, *outbound, remote_address), false)
        },
        NodeLog::ConnectionClosed { peer_id } => {
            (around_peer("    Connection closed with: ", peer_id, ""), false)
        },
        NodeLog::DialFailed { peer_id, error } => match peer_id {
            Some(p) => {
                let mut text = around_peer("Dial failed for peer ", p, ": ");
                text.append(error.as_str());
                (text, true)
            },
            None => {
                let mut text = "Dial failed: ".to_owned();
                text.append(error.as_str());
                (text, true)
            },
        },
        NodeLog::Listening { address } => (listening_line(address), false),
        NodeLog::Dialing { peer_id } => (around_peer("Dialing peer ", peer_id, ""), false),
        NodeLog::RelayOutboundCircuit { relay_peer_id } => {
            (around_peer("Relay client outbound circuit established through relay: ", relay_peer_id, ""), false)
        },
        NodeLog::RelayInboundCircuit { src_peer_id } => {
            (around_peer("Relay client inbound circuit established from: ", src_peer_id, ""), false)
        },
        NodeLog::RelayReservationAccepted { src_peer_id } => {
            (around_peer("Relay server accepted reservation request from ", src_peer_id, ""), false)
        },
        NodeLog::RelayReservationDenied { src_peer_id } => {
            (around_peer("Relay server denied reservation from ", src_peer_id, ""), true)
        },
        NodeLog::RelayReservationTimedOut { src_peer_id } => {
            (around_peer("Relay server reservation timed out for ", src_peer_id, ""), false)
        },
    };
    proof {
        reveal_strlit("");
    }
    assert(text@ =~= log_text(*log));
    LogLine { text, to_stderr }
}

} // verus!
