//! Control-plane logic of a peer-to-peer VPN node: the application message
//! set, interpretation of operator input, relay reservation state, swarm
//! event handling, the control API and the peer table kept on disk.
use vstd::prelude::*;

pub mod chat_node;
pub mod config;
pub mod db;
pub mod identity;
pub mod p2p;
pub mod protocol;
pub mod services;
pub mod text;
pub mod types;

verus! {

} // verus!
