//! Key pairs for identity and key exchange.

use vstd::prelude::*;

verus! {

/// An Ed25519 identity key pair.
#[derive(Debug, Clone, Copy)]
pub struct IdentityKeyPair {
    /// The public identity key.
    pub public_key: [u8; 32],
    /// The private identity key.
    pub private_key: [u8; 32],
}

/// An X25519 key exchange pair.
#[derive(Debug, Clone, Copy)]
pub struct KeyExchangePair {
    /// The public exchange key.
    pub public_key: [u8; 32],
    /// The private exchange key.
    pub private_key: [u8; 32],
}

} // verus!
