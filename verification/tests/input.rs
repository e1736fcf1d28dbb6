use libp2p::PeerId;
use p2p_tunnel::p2p::swarm::{handle_input, InputCommand};
use p2p_tunnel::protocol::Message;
use p2p_tunnel::protocol::discovery::service_query;
use p2p_tunnel::protocol::rpc::message;
use p2p_tunnel::services::chat::parse_input;

fn published(cmd: InputCommand) -> Message {
    match cmd {
        InputCommand::Publish(m) => m,
        other => panic!("expected a publication, got {other:?}"),
    }
}

#[test]
fn plain_line_is_chat() {
    match published(handle_input("hello world".to_string())) {
        Message::Chat(text) => assert_eq!(text, "hello world"),
        other => panic!("{other:?}"),
    }
}

#[test]
fn parse_input_wraps_line() {
    match parse_input("héllo".to_string()) {
        Message::Chat(text) => assert_eq!(text, "héllo"),
        other => panic!("{other:?}"),
    }
}

#[test]
fn rpc_line_becomes_rpc_call() {
    match published(handle_input("/rpc ping".to_string())) {
        Message::RPC { method, params } => {
            assert_eq!(method, "ping");
            assert_eq!(params, vec!["param1".to_string()]);
        }
        other => panic!("{other:?}"),
    }
}

#[test]
fn repeated_prefixes_are_all_stripped() {
    match published(handle_input("/rpc /rpc status".to_string())) {
        Message::RPC { method, .. } => assert_eq!(method, "status"),
        other => panic!("{other:?}"),
    }
}

#[test]
fn file_line_becomes_file_chunk() {
    match published(handle_input("/file notes.txt".to_string())) {
        Message::FileChunk { file_name, chunk_index, data } => {
            assert_eq!(file_name, "notes.txt");
            assert_eq!(chunk_index, 0);
            assert_eq!(data, b"raw binary chunk payload mock".to_vec());
        }
        other => panic!("{other:?}"),
    }
}

#[test]
fn discovery_and_info_commands() {
    match published(handle_input("/discovery".to_string())) {
        Message::ServiceDiscovery { service_type } => assert_eq!(service_type, "vpn-node"),
        other => panic!("{other:?}"),
    }
    match published(handle_input("/info".to_string())) {
        Message::PeerInfo { alias, capabilities } => {
            assert_eq!(alias, "RustNode");
            assert_eq!(capabilities, vec!["Gossip".to_string(), "Relay".to_string()]);
        }
        other => panic!("{other:?}"),
    }
    match published(handle_input("/discovery ".to_string())) {
        Message::Chat(text) => assert_eq!(text, "/discovery "),
        other => panic!("{other:?}"),
    }
}

#[test]
fn direct_message_to_valid_peer() {
    let peer = PeerId::random();
    let line = format!("/direct {peer} hi there");
    match handle_input(line) {
        InputCommand::Direct { peer_id, message } => {
            assert_eq!(peer_id, peer);
            match message {
                Message::Chat(text) => assert_eq!(text, "hi there"),
                other => panic!("{other:?}"),
            }
        }
        other => panic!("{other:?}"),
    }
}

#[test]
fn direct_message_errors() {
    assert!(matches!(handle_input("/direct nonsense hi".to_string()), InputCommand::InvalidPeerId));
    assert!(matches!(handle_input("/direct onlyonepart".to_string()), InputCommand::DirectUsage));
    assert!(matches!(handle_input("/direct ".to_string()), InputCommand::DirectUsage));
}

#[test]
fn service_query_and_rpc_message() {
    match service_query("printer") {
        Message::ServiceDiscovery { service_type } => assert_eq!(service_type, "printer"),
        other => panic!("{other:?}"),
    }
    match message("sum".to_string(), vec!["1".to_string(), "2".to_string()]) {
        Message::RPC { method, params } => {
            assert_eq!(method, "sum");
            assert_eq!(params, vec!["1".to_string(), "2".to_string()]);
        }
        other => panic!("{other:?}"),
    }
}
