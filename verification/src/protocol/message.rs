//! The application message set carried over gossip and direct requests.
use vstd::prelude::*;

verus! {

/// One application-level message.
#[derive(Debug, Clone)]
pub enum Message {
    Chat(String),
    FileChunk { file_name: String, chunk_index: u64, data: Vec<u8> },
    PeerInfo { alias: String, capabilities: Vec<String> },
    ServiceDiscovery { service_type: String },
    RPC { method: String, params: Vec<String> },
}

/// A message taken as mathematical values: texts as character sequences.
pub enum MessageView {
    Chat(Seq<char>),
    FileChunk { file_name: Seq<char>, chunk_index: u64, data: Seq<u8> },
    PeerInfo { alias: Seq<char>, capabilities: Seq<Seq<char>> },
    ServiceDiscovery { service_type: Seq<char> },
    RPC { method: Seq<char>, params: Seq<Seq<char>> },
}

/// The texts of a list of strings.
pub open spec fn texts(v: Seq<String>) -> Seq<Seq<char>> {
    v.map_values(|s: String| s@)
}

impl View for Message {
    type V = MessageView;

    open spec fn view(&self) -> MessageView {
        match self {
            Message::Chat(text) => MessageView::Chat(text@),
            Message::FileChunk { file_name, chunk_index, data } => MessageView::FileChunk {
                file_name: file_name@,
                chunk_index: *chunk_index,
                data: data@,
            },
            Message::PeerInfo { alias, capabilities } => MessageView::PeerInfo {
                alias: alias@,
                capabilities: texts(capabilities@),
            },
            Message::ServiceDiscovery { service_type } => MessageView::ServiceDiscovery {
                service_type: service_type@,
            },
            Message::RPC { method, params } => MessageView::RPC {
                method: method@,
                params: texts(params@),
            },
        }
    }
}

} // verus!
