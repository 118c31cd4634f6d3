//! Peer-to-peer connection establishment for streaming MIDI between nodes.
//!
//! The crate models the connection subsystem of a NAT-traversing peer:
//! deterministic node identities, structured multi-segment network
//! addresses, the relay-assisted address-learning handshake, the circuit
//! dial/listen controller with hole-punch upgrade tracking, and the
//! relay-server reservation contract that the client flows depend on.

pub mod address;
pub mod client;
pub mod constants;
pub mod engine;
pub mod events;
pub mod handshake;
pub mod identity;
pub mod relay_server;
pub mod settings;
