//! Storage subsystem: conversations, contacts and an in-memory store.

pub mod adapters;
pub mod ports;
pub mod schema;
