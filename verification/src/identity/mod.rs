//! The node's cryptographic identity.
pub mod keypair;
pub mod peer_id;

pub use keypair::identity_from_store;
pub use peer_id::derive_peer_id;
