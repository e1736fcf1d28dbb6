//! The peer-to-peer control plane.
pub mod control;
pub mod discovery;
pub mod events;
pub mod log;
pub mod relay;
pub mod swarm;
