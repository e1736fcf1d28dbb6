//! The application protocol spoken between nodes.
pub mod discovery;
pub mod message;
pub mod rpc;

pub use message::{Message, MessageView};
