//! Peer-to-peer networking: peers, discovery and DHT ports, an in-memory adapter.

pub mod adapters;
pub mod peer;
pub mod ports;
