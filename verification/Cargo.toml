[package]
name = "p2p_tunnel"
version = "0.1.0"
edition = "2021"
publish = false

[dependencies]
libp2p = { version = "0.56", features = ["tokio", "gossipsub", "mdns", "identify", "kad", "dcutr", "relay", "autonat", "request-response", "cbor", "tcp", "quic", "noise", "yamux", "macros", "ed25519"] }
serde = { version = "1", features = ["derive"] }
bincode = "1"
tokio = { version = "1", features = ["full"] }
futures = "0.3"
rusqlite = { version = "*", features = ["bundled"] }
directories = "*"
