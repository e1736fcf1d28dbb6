//! Services built on the node: chat input and the peer lifecycle.
pub mod chat;
pub mod peers;
