//! AetherLink protocol engine: packet codec with CRC-16 integrity, a
//! single-hop routing table, a QoS-scored service directory, a bully-style
//! election protocol, and the forward-node handshake logic that binds a
//! client to a server through a relay.
//!
//! Every function here is verified: contracts state the wire layouts and
//! table behaviour exactly, and the radio/timer plumbing that drives them
//! lives outside the library.

pub mod beacon;
pub mod buffer;
pub mod checksum;
pub mod cli;
pub mod client;
pub mod data;
pub mod directory;
pub mod election;
pub mod handshake;
pub mod protocol;
pub mod routing;
pub mod sensor;
pub mod slots;
pub mod storage;
