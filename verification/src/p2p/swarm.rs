//! The node's decisions that do not touch the network themselves: how it is
//! configured, which bootstrap peer to dial, which addresses to listen on, and
//! what an operator's input line asks for.
use vstd::prelude::*;
use libp2p::{Multiaddr, PeerId};
use std::path::PathBuf;
use crate::config::{i32_from_text, lemma_i32_decimal_reads_back};
use crate::p2p::discovery::{bootstrap_peer_id, trailing_peer};
use crate::protocol::message::{Message, MessageView};
use crate::protocol::{discovery, rpc};
use crate::services::chat;
use crate::text::{
    chars_of, find_char, first_index_of, has_prefix, matches_at, push_signed_decimal, same_text,
    signed_decimal, skip_prefixes, string_from_chars, strip_prefixes,
};
use crate::types::{
    is_base58_char, multiaddr_from_text, multiaddr_parts, parse_multiaddr, parse_peer_id, peer_id_from_text,
};
use vstd::string::StringExecFns;

verus! {

/// How a chat node is started.
pub struct NodeConfig {
    pub node_dir: PathBuf,
    pub local_proxy_port: i32,
    pub bootstrap_mode: Option<String>,
}

/// A bootstrap peer to dial: its id and the address that names it.
#[derive(Debug)]
pub struct BootstrapTarget {
    pub peer_id: PeerId,
    pub addr: Multiaddr,
}

/// What the bootstrap mode makes of the node.
#[derive(Debug)]
pub enum BootstrapRole {
    /// No bootstrap mode was given: nothing to dial.
    NoBootstrap,
    /// The mode is `bootstrap`: the node is the network's entry point.
    EntryPoint,
    /// Dial this bootstrap peer.
    Dial(BootstrapTarget),
}

/// Why a bootstrap address cannot be used.
#[derive(Debug)]
pub enum BootstrapError {
    /// The text is not a multiaddress; the parse error.
    InvalidAddress(libp2p::multiaddr::Error),
    /// The address does not end in `/p2p/<PeerId>`.
    MissingPeerId,
}

/// What a bootstrap mode asks of the node, as mathematical values.
pub enum BootstrapPlan {
    /// No mode: nothing to dial.
    NoBootstrap,
    /// The node is itself the entry point.
    EntryPoint,
    /// Dial the peer at the address.
    Dial(PeerId, Multiaddr),
    /// The mode is not a multiaddress.
    InvalidAddress,
    /// The address does not name its peer.
    MissingPeerId,
}

/// The text of an optional mode.
pub open spec fn mode_text(mode: Option<&str>) -> Option<Seq<char>> {
    match mode {
        Some(m) => Some(m@),
        None => None,
    }
}

/// What a bootstrap mode asks: nothing for no mode, being the entry point
/// for `bootstrap`, else dialing the peer named by the trailing `/p2p/`
/// component of the address written in the mode.
pub open spec fn bootstrap_plan(mode: Option<Seq<char>>) -> BootstrapPlan {
    match mode {
        None => BootstrapPlan::NoBootstrap,
        Some(text) => if text == "bootstrap"@ {
            BootstrapPlan::EntryPoint
        } else {
            match multiaddr_from_text(text) {
                Err(_) => BootstrapPlan::InvalidAddress,
                Ok(addr) => match trailing_peer(multiaddr_parts(addr)) {
                    Some(peer_id) => BootstrapPlan::Dial(peer_id, addr),
                    None => BootstrapPlan::MissingPeerId,
                },
            }
        },
    }
}

/// The bootstrap peer to dial for `bootstrap_mode`; see [`bootstrap_plan`].
pub fn bootstrap_target(bootstrap_mode: Option<&str>) -> (target: Result<BootstrapRole, BootstrapError>)
    ensures
        match bootstrap_plan(mode_text(bootstrap_mode)) {
            BootstrapPlan::NoBootstrap => target matches Ok(BootstrapRole::NoBootstrap),
            BootstrapPlan::EntryPoint => target matches Ok(BootstrapRole::EntryPoint),
            BootstrapPlan::Dial(peer_id, addr) => target matches Ok(BootstrapRole::Dial(t))
                && t.peer_id == peer_id && t.addr == addr,
            BootstrapPlan::InvalidAddress => target matches Err(BootstrapError::InvalidAddress(e))
                && multiaddr_from_text(mode_text(bootstrap_mode)->0) == Err::<Multiaddr, libp2p::multiaddr::Error>(e),
            BootstrapPlan::MissingPeerId => target matches Err(BootstrapError::MissingPeerId),
        },
{
    match bootstrap_mode {
        None => Ok(BootstrapRole::NoBootstrap),
        Some(text) => {
            if same_text(&chars_of(text), &chars_of("bootstrap")) {
                return Ok(BootstrapRole::EntryPoint);
            }
            match parse_multiaddr(text) {
                Err(e) => Err(BootstrapError::InvalidAddress(e)),
                Ok(addr) => match bootstrap_peer_id(&addr) {
                    Some(peer_id) => Ok(BootstrapRole::Dial(BootstrapTarget { peer_id, addr })),
                    None => Err(BootstrapError::MissingPeerId),
                },
            }
        },
    }
}

/// The line that an entry-point node logs.
pub open spec fn entry_point_text() -> Seq<char> {
    "Node is running as the Bootstrap point"@
}

/// The line to log when the bootstrap mode makes this node the entry point.
pub fn entry_point_line() -> (line: String)
    ensures
        line@ == entry_point_text(),
{
    "Node is running as the Bootstrap point".to_owned()
}

/// The text of the TCP listen address on `ip` and `port`.
pub open spec fn tcp_listen_text(ip: Seq<char>, port: i32) -> Seq<char> {
    "/ip4/"@ + ip + "/tcp/"@ + signed_decimal(port as int)
}

/// The text of the QUIC listen address on `ip` and `port`.
pub open spec fn quic_listen_text(ip: Seq<char>, port: i32) -> Seq<char> {
    "/ip4/"@ + ip + "/udp/"@ + signed_decimal(port as int) + "/quic-v1"@
}

/// The TCP and the QUIC listen address both name the IP asked for and the
/// same port, written as a numeral that reads back as that port.
pub proof fn lemma_listen_texts_share_ip_and_port(ip: Seq<char>, port: i32)
    ensures
        exists|digits: Seq<char>| #![trigger i32_from_text(digits)] {
            &&& i32_from_text(digits) == Some(port)
            &&& tcp_listen_text(ip, port) == "/ip4/"@ + ip + "/tcp/"@ + digits
            &&& quic_listen_text(ip, port) == "/ip4/"@ + ip + "/udp/"@ + digits + "/quic-v1"@
        },
{
    lemma_i32_decimal_reads_back(port);
    let digits = signed_decimal(port as int);
    assert(i32_from_text(digits) == Some(port));
}

/// The TCP and the QUIC address to listen on for `ip` and `port`, or the
/// parse error of the first of them that is not a multiaddress.
pub fn listen_addresses(ip: &str, port: i32) -> (addrs: Result<(Multiaddr, Multiaddr), libp2p::multiaddr::Error>)
    ensures
        addrs == match (multiaddr_from_text(tcp_listen_text(ip@, port)), multiaddr_from_text(quic_listen_text(ip@, port))) {
            (Ok(tcp), Ok(quic)) => Ok((tcp, quic)),
            (Err(e), _) => Err(e),
            (Ok(_), Err(e)) => Err(e),
        },
{
    let mut tcp_text = "/ip4/".to_owned();
    tcp_text.append(ip);
    tcp_text.append("/tcp/");
    push_signed_decimal(&mut tcp_text, port as i64);
    let mut quic_text = "/ip4/".to_owned();
    quic_text.append(ip);
    quic_text.append("/udp/");
    push_signed_decimal(&mut quic_text, port as i64);
    quic_text.append("/quic-v1");
    assert(tcp_text@ == tcp_listen_text(ip@, port));
    assert(quic_text@ == quic_listen_text(ip@, port));
    let tcp = match parse_multiaddr(tcp_text.as_str()) {
        Ok(a) => a,
        Err(e) => return Err(e),
    };
    let quic = match parse_multiaddr(quic_text.as_str()) {
        Ok(a) => a,
        Err(e) => return Err(e),
    };
    Ok((tcp, quic))
}

/// What a line of operator input asks the node to do.
#[derive(Debug)]
pub enum InputCommand {
    /// Send `message` straight to `peer_id` (`/direct <PEER_ID> <TEXT>`).
    Direct { peer_id: PeerId, message: Message },
    /// A `/direct` command whose peer id does not parse.
    InvalidPeerId,
    /// A `/direct` command without a message part.
    DirectUsage,
    /// Publish `message` on the chat topic.
    Publish(Message),
}

/// An input command as mathematical values.
pub enum InputCommandView {
    Direct { peer_id: PeerId, message: MessageView },
    InvalidPeerId,
    DirectUsage,
    Publish(MessageView),
}

impl View for InputCommand {
    type V = InputCommandView;

    open spec fn view(&self) -> InputCommandView {
        match self {
            InputCommand::Direct { peer_id, message } => InputCommandView::Direct {
                peer_id: *peer_id,
                message: message@,
            },
            InputCommand::InvalidPeerId => InputCommandView::InvalidPeerId,
            InputCommand::DirectUsage => InputCommandView::DirectUsage,
            InputCommand::Publish(message) => InputCommandView::Publish(message@),
        }
    }
}

/// The payload that a `/file` command sends: the ASCII bytes of a fixed text.
pub open spec fn file_chunk_payload() -> Seq<u8> {
    "raw binary chunk payload mock"@.map_values(|c: char| c as u8)
}

/// The command that a `/direct ` line asks for; `rest` is the line after all
/// leading `/direct ` prefixes, split at its first space.
pub open spec fn direct_command(rest: Seq<char>) -> InputCommandView {
    match first_index_of(rest, ' ') {
        Some(i) => match peer_id_from_text(rest.subrange(0, i)) {
            Some(peer_id) => InputCommandView::Direct {
                peer_id,
                message: MessageView::Chat(rest.subrange(i + 1, rest.len() as int)),
            },
            None => InputCommandView::InvalidPeerId,
        },
        None => InputCommandView::DirectUsage,
    }
}

/// The command that an input line asks for.
pub open spec fn input_command(line: Seq<char>) -> InputCommandView {
    if has_prefix(line, "/direct "@) {
        direct_command(strip_prefixes(line, "/direct "@))
    } else if has_prefix(line, "/rpc "@) {
        InputCommandView::Publish(
            MessageView::RPC { method: strip_prefixes(line, "/rpc "@), params: seq!["param1"@] },
        )
    } else if has_prefix(line, "/file "@) {
        InputCommandView::Publish(
            MessageView::FileChunk {
                file_name: strip_prefixes(line, "/file "@),
                chunk_index: 0,
                data: file_chunk_payload(),
            },
        )
    } else if line == "/discovery"@ {
        InputCommandView::Publish(MessageView::ServiceDiscovery { service_type: "vpn-node"@ })
    } else if line == "/info"@ {
        InputCommandView::Publish(
            MessageView::PeerInfo { alias: "RustNode"@, capabilities: seq!["Gossip"@, "Relay"@] },
        )
    } else {
        InputCommandView::Publish(MessageView::Chat(line))
    }
}

/// `/direct <PEER_ID> <TEXT>` sends `TEXT` to the peer: for every peer id
/// written in base 58 (as `PeerId`'s `to_string` writes every peer id), the
/// line made of the command, that id, a space and any text asks to send
/// exactly that text, as a chat message, to the peer the id reads as.
pub proof fn lemma_direct_line_sends_to_peer(id_text: Seq<char>, peer_id: PeerId, text: Seq<char>)
    requires
        peer_id_from_text(id_text) == Some(peer_id),
        forall|i: int| 0 <= i < id_text.len() ==> is_base58_char(#[trigger] id_text[i]),
    ensures
        input_command("/direct "@ + id_text + " "@ + text) == (InputCommandView::Direct {
            peer_id,
            message: MessageView::Chat(text),
        }),
{
    reveal_strlit("/direct ");
    reveal_strlit(" ");
    reveal(first_index_of);
    let prefix = "/direct "@;
    let line = prefix + id_text + " "@ + text;
    let rest = id_text + " "@ + text;
    assert(line.subrange(0, prefix.len() as int) =~= prefix);
    assert(line.subrange(prefix.len() as int, line.len() as int) =~= rest);
    assert(!has_prefix(rest, prefix)) by {
        if has_prefix(rest, prefix) {
            assert(rest.subrange(0, prefix.len() as int)[0] == rest[0]);
            if id_text.len() > 0 {
                assert(is_base58_char(id_text[0]));
            }
        }
    }
    assert(strip_prefixes(rest, prefix) == rest);
    assert(has_prefix(line, prefix));
    assert(strip_prefixes(line, prefix) == strip_prefixes(line.subrange(prefix.len() as int, line.len() as int), prefix));
    assert(strip_prefixes(line, prefix) == rest);
    let k = id_text.len() as int;
    assert(rest[k] == ' ');
    assert forall|j: int| 0 <= j < k implies rest[j] != ' ' by {
        assert(rest[j] == id_text[j]);
        assert(is_base58_char(id_text[j]));
    }
    assert(first_index_of(rest, ' ') == Some(k)) by {
        assert(0 <= k < rest.len() && rest[k] == ' ' && forall|j: int| 0 <= j < k ==> rest[j] != ' ');
        let w = choose|w: int| 0 <= w < rest.len() && rest[w] == ' ' && forall|j: int| 0 <= j < w ==> rest[j] != ' ';
        if w < k {
            assert(rest[w] == id_text[w]);
        }
        if k < w {
            assert(rest[k] != ' ');
        }
    }
    assert(rest.subrange(0, k) =~= id_text);
    assert(rest.subrange(k + 1, rest.len() as int) =~= text);
}

/// A line that does not begin with `/` is sent as a chat message carrying the
/// line unchanged.
pub proof fn lemma_plain_line_is_chat(line: Seq<char>)
    requires
        line.len() == 0 || line[0] != '/',
    ensures
        input_command(line) == InputCommandView::Publish(MessageView::Chat(line)),
{
    reveal_strlit("/direct ");
    reveal_strlit("/rpc ");
    reveal_strlit("/file ");
    reveal_strlit("/discovery");
    reveal_strlit("/info");
    if line.len() > 0 {
        assert(!has_prefix(line, "/direct "@)) by {
            if has_prefix(line, "/direct "@) {
                assert(line.subrange(0, 8)[0] == line[0]);
            }
        }
        assert(!has_prefix(line, "/rpc "@)) by {
            if has_prefix(line, "/rpc "@) {
                assert(line.subrange(0, 5)[0] == line[0]);
            }
        }
        assert(!has_prefix(line, "/file "@)) by {
            if has_prefix(line, "/file "@) {
                assert(line.subrange(0, 6)[0] == line[0]);
            }
        }
        assert(line != "/discovery"@) by {
            if line == "/discovery"@ {
                assert(line[0] == '/');
            }
        }
        assert(line != "/info"@) by {
            if line == "/info"@ {
                assert(line[0] == '/');
            }
        }
    }
}

/// A pattern followed by a text that does not itself begin with it loses
/// exactly that one occurrence when leading repetitions are stripped.
proof fn lemma_strip_one_prefix(p: Seq<char>, t: Seq<char>)
    requires
        p.len() > 0,
        !has_prefix(t, p),
    ensures
        has_prefix(p + t, p),
        strip_prefixes(p + t, p) == t,
{
    let s = p + t;
    assert(s.subrange(0, p.len() as int) =~= p);
    assert(s.subrange(p.len() as int, s.len() as int) =~= t);
    assert(strip_prefixes(t, p) == t);
    assert(strip_prefixes(s, p) == strip_prefixes(s.subrange(p.len() as int, s.len() as int), p));
}

/// A line whose character at `k` differs from that of `prefix` does not begin
/// with `prefix`.
proof fn lemma_char_differs(line: Seq<char>, prefix: Seq<char>, k: int)
    requires
        0 <= k < line.len(),
        k < prefix.len(),
        line[k] != prefix[k],
    ensures
        !has_prefix(line, prefix),
{
    if has_prefix(line, prefix) {
        assert(line.subrange(0, prefix.len() as int)[k] == line[k]);
    }
}

/// `/file <NAME>` publishes chunk 0 of the file named exactly `NAME`, spaces
/// and all, carrying the fixed payload: for every name that does not itself
/// begin with `/file `.
pub proof fn lemma_file_line_names_the_file(name: Seq<char>)
    requires
        !has_prefix(name, "/file "@),
    ensures
        input_command("/file "@ + name) == InputCommandView::Publish(
            MessageView::FileChunk {
                file_name: name,
                chunk_index: 0,
                data: "raw binary chunk payload mock"@.map_values(|c: char| c as u8),
            },
        ),
{
    reveal_strlit("/direct ");
    reveal_strlit("/rpc ");
    reveal_strlit("/file ");
    let line = "/file "@ + name;
    assert(line[1] == 'f');
    lemma_char_differs(line, "/direct "@, 1);
    lemma_char_differs(line, "/rpc "@, 1);
    lemma_strip_one_prefix("/file "@, name);
}

/// `/rpc <METHOD>` publishes a call of exactly `METHOD`, spaces and all, with
/// the single parameter `param1`: for every method that does not itself begin
/// with `/rpc `.
pub proof fn lemma_rpc_line_calls_the_method(method: Seq<char>)
    requires
        !has_prefix(method, "/rpc "@),
    ensures
        input_command("/rpc "@ + method) == InputCommandView::Publish(
            MessageView::RPC { method, params: seq!["param1"@] },
        ),
{
    reveal_strlit("/direct ");
    reveal_strlit("/rpc ");
    let line = "/rpc "@ + method;
    assert(line[1] == 'r');
    lemma_char_differs(line, "/direct "@, 1);
    lemma_strip_one_prefix("/rpc "@, method);
}

/// `/discovery` asks who offers the VPN node service, and `/info` publishes
/// this node's alias and capabilities.
pub proof fn lemma_query_and_info_lines()
    ensures
        input_command("/discovery"@) == InputCommandView::Publish(
            MessageView::ServiceDiscovery { service_type: "vpn-node"@ },
        ),
        input_command("/info"@) == InputCommandView::Publish(
            MessageView::PeerInfo { alias: "RustNode"@, capabilities: seq!["Gossip"@, "Relay"@] },
        ),
{
    reveal_strlit("/direct ");
    reveal_strlit("/rpc ");
    reveal_strlit("/file ");
    reveal_strlit("/discovery");
    reveal_strlit("/info");
    let d = "/discovery"@;
    assert(d[1] == 'd' && d[3] == 's');
    lemma_char_differs(d, "/direct "@, 3);
    lemma_char_differs(d, "/rpc "@, 1);
    lemma_char_differs(d, "/file "@, 1);
    let i = "/info"@;
    assert(i[1] == 'i');
    lemma_char_differs(i, "/direct "@, 1);
    lemma_char_differs(i, "/rpc "@, 1);
    lemma_char_differs(i, "/file "@, 1);
    assert(i != d) by {
        assert(i.len() != d.len());
    }
}

/// `/direct` with a target but no message part asks only for the usage line;
/// `/direct <X> <TEXT>` where `X` holds no space and reads as no peer id is
/// refused as naming an invalid peer. Both hold for every target not starting
/// with `/` (a peer id never does).
pub proof fn lemma_direct_line_refusals(target: Seq<char>, text: Seq<char>)
    requires
        target.len() == 0 || target[0] != '/',
        forall|i: int| 0 <= i < target.len() ==> #[trigger] target[i] != ' ',
    ensures
        input_command("/direct "@ + target) == InputCommandView::DirectUsage,
        peer_id_from_text(target) is None ==> input_command("/direct "@ + target + " "@ + text)
            == InputCommandView::InvalidPeerId,
{
    reveal_strlit("/direct ");
    reveal_strlit(" ");
    reveal(first_index_of);
    let prefix = "/direct "@;
    if target.len() > 0 {
        lemma_char_differs(target, prefix, 0);
    }
    lemma_strip_one_prefix(prefix, target);
    assert(first_index_of(target, ' ') is None) by {
        if exists|i: int| 0 <= i < target.len() && target[i] == ' ' {
            let i = choose|i: int| 0 <= i < target.len() && target[i] == ' ';
            assert(target[i] != ' ');
        }
    }
    let rest = target + " "@ + text;
    let k = target.len() as int;
    assert(rest[0] == if k > 0 { target[0] } else { ' ' });
    lemma_char_differs(rest, prefix, 0);
    assert(prefix + target + " "@ + text =~= prefix + rest);
    lemma_strip_one_prefix(prefix, rest);
    assert(rest[k] == ' ');
    assert forall|j: int| 0 <= j < k implies rest[j] != ' ' by {
        assert(rest[j] == target[j]);
    }
    assert(first_index_of(rest, ' ') == Some(k)) by {
        let w = choose|w: int| 0 <= w < rest.len() && rest[w] == ' ' && forall|j: int| 0 <= j < w ==> rest[j] != ' ';
        if w < k {
            assert(rest[w] == target[w]);
        }
        if k < w {
            assert(rest[k] != ' ');
        }
    }
    assert(rest.subrange(0, k) =~= target);
}

/// No bootstrap mode asks for nothing, and `bootstrap` makes the node the
/// entry point. Any other mode is an address: one that does not parse is
/// refused; one that parses is dialed, at the peer that its last component
/// names, when that is a `/p2p/` component, and refused otherwise.
pub proof fn lemma_bootstrap_modes(text: Seq<char>)
    ensures
        bootstrap_plan(None) == BootstrapPlan::NoBootstrap,
        bootstrap_plan(Some("bootstrap"@)) == BootstrapPlan::EntryPoint,
        text != "bootstrap"@ ==> match multiaddr_from_text(text) {
            Err(_) => bootstrap_plan(Some(text)) == BootstrapPlan::InvalidAddress,
            Ok(addr) => {
                let parts = multiaddr_parts(addr);
                &&& (parts.len() > 0 && parts.last() is P2p) ==> bootstrap_plan(Some(text))
                    == BootstrapPlan::Dial(parts.last()->0, addr)
                &&& !(parts.len() > 0 && parts.last() is P2p) ==> bootstrap_plan(Some(text))
                    == BootstrapPlan::MissingPeerId
            },
        },
{
}

/// The bytes of the `/file` payload.
fn file_chunk_bytes() -> (data: Vec<u8>)
    ensures
        data@ == file_chunk_payload(),
{
    let text = "raw binary chunk payload mock";
    proof {
        reveal_strlit("raw binary chunk payload mock");
        assert(vstd::string::is_ascii(text));
        vstd::string::is_ascii_spec_bytes(text);
    }
    let data = vstd::slice::slice_to_vec(text.as_bytes());
    assert(data@ =~= file_chunk_payload());
    data
}

/// Interprets a `/direct ` line; `start` is where its leading prefixes end.
fn direct_input(chars: &Vec<char>, start: usize) -> (cmd: InputCommand)
    requires
        start <= chars@.len(),
    ensures
        cmd@ == direct_command(chars@.subrange(start as int, chars@.len() as int)),
{
    let ghost rest = chars@.subrange(start as int, chars@.len() as int);
    let n = chars.len();
    match find_char(chars, start, ' ') {
        Some(space) => {
            assert(first_index_of(rest, ' ') == Some(space - start));
            let head = string_from_chars(chars, start, space);
            let tail = string_from_chars(chars, space + 1, n);
            assert(head@ =~= rest.subrange(0, space - start));
            assert(tail@ =~= rest.subrange(space - start + 1, rest.len() as int));
            let text = head.as_str();
            assert(text@ == head@);
            match parse_peer_id(text) {
                Some(peer_id) => {
                    let message = chat::parse_input(tail);
                    assert(message@ == MessageView::Chat(rest.subrange(space - start + 1, rest.len() as int)));
                    InputCommand::Direct { peer_id, message }
                },
                None => InputCommand::InvalidPeerId,
            }
        },
        None => {
            assert(first_index_of(rest, ' ') is None);
            InputCommand::DirectUsage
        },
    }
}

/// What a line typed by the operator asks for: a direct message
/// (`/direct <PEER_ID> <TEXT>`), an RPC call (`/rpc <METHOD>`), a file chunk
/// (`/file <NAME>`), a service query (`/discovery`), this node's description
/// (`/info`), or else a chat message carrying the line.
pub fn handle_input(line: String) -> (cmd: InputCommand)
    ensures
        cmd@ == input_command(line@),
{
    let chars = chars_of(line.as_str());
    let direct = chars_of("/direct ");
    let rpc_prefix = chars_of("/rpc ");
    let file_prefix = chars_of("/file ");
    proof {
        reveal_strlit("/direct ");
        reveal_strlit("/rpc ");
        reveal_strlit("/file ");
    }
    if matches_at(&chars, 0, &direct) {
        let start = skip_prefixes(&chars, &direct);
        return direct_input(&chars, start);
    }
    if matches_at(&chars, 0, &rpc_prefix) {
        let start = skip_prefixes(&chars, &rpc_prefix);
        let method = string_from_chars(&chars, start, chars.len());
        let params = vec!["param1".to_owned()];
        let cmd = InputCommand::Publish(rpc::message(method, params));
        assert(cmd@ == input_command(line@)) by {
            reveal_strlit("param1");
            assert(crate::protocol::message::texts(params@) =~= seq!["param1"@]);
        }
        return cmd;
    }
    if matches_at(&chars, 0, &file_prefix) {
        let start = skip_prefixes(&chars, &file_prefix);
        let file_name = string_from_chars(&chars, start, chars.len());
        return InputCommand::Publish(
            Message::FileChunk { file_name, chunk_index: 0, data: file_chunk_bytes() },
        );
    }
    if same_text(&chars, &chars_of("/discovery")) {
        return InputCommand::Publish(discovery::service_query("vpn-node"));
    }
    if same_text(&chars, &chars_of("/info")) {
        let capabilities = vec!["Gossip".to_owned(), "Relay".to_owned()];
        let cmd = InputCommand::Publish(
            Message::PeerInfo { alias: "RustNode".to_owned(), capabilities },
        );
        assert(crate::protocol::message::texts(capabilities@) =~= seq!["Gossip"@, "Relay"@]);
        return cmd;
    }
    InputCommand::Publish(chat::parse_input(line))
}

} // verus!
