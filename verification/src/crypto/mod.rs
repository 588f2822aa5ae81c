//! End-to-end encryption subsystem: key pairs, pre-keys, key generation and a
//! development adapter.

pub mod adapters;
pub mod generate_keys;
pub mod keypair;
pub mod pre_key;
