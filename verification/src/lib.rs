//! Presidium: the verified core of a decentralised, end-to-end encrypted,
//! peer-to-peer messenger.

pub mod text;
pub mod domain;
pub mod config;
pub mod observability;
pub mod registry;
pub mod ports;
pub mod message_order;
pub mod bytes;
pub mod adapters;
pub mod storage;
pub mod clock;
pub mod entropy;
pub mod messaging;
pub mod p2p;
pub mod crypto;
pub mod llm;
pub mod bridge;
pub mod pipeline;
