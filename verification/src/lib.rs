//! Verified core of a small disk-backed message broker: configuration
//! values, the client handshake, the topic table and the per-connection
//! session state machines.

pub mod config;
pub mod handshake;
pub mod server;
pub mod session;
