//! Pre-keys of the key agreement protocol.

use crate::ports::PreKeyBundle;
use vstd::prelude::*;

verus! {

/// A signed pre-key with its signature.
#[derive(Debug, Clone)]
pub struct SignedPreKey {
    /// Identifier of the pre-key.
    pub id: u32,
    /// Public key of the pre-key.
    pub public_key: [u8; 32],
    /// Signature over the public key by the identity key.
    pub signature: Vec<u8>,
}

/// A one-time pre-key.
#[derive(Debug, Clone, Copy)]
pub struct OneTimePreKey {
    /// Identifier of the pre-key.
    pub id: u32,
    /// Public key of the pre-key.
    pub public_key: [u8; 32],
}

/// Assembles a pre-key bundle from an identity key and pre-keys.
pub fn to_pre_key_bundle(
    identity_key: &[u8],
    signed: &SignedPreKey,
    one_time: Option<&OneTimePreKey>,
) -> (r: PreKeyBundle)
    ensures
        r.identity_key@ == identity_key@,
        r.signed_pre_key@ == signed.public_key@,
        r.signed_pre_key_signature@ == signed.signature@,
        match one_time {
            Some(ot) => r.one_time_pre_key matches Some(k) && k@ == ot.public_key@,
            None => r.one_time_pre_key is None,
        },
{
    let one_time_pre_key = match one_time {
        Some(ot) => Some(vstd::slice::slice_to_vec(ot.public_key.as_slice())),
        None => None,
    };
    PreKeyBundle {
        identity_key: vstd::slice::slice_to_vec(identity_key),
        signed_pre_key: vstd::slice::slice_to_vec(signed.public_key.as_slice()),
        signed_pre_key_signature: vstd::slice::slice_to_vec(signed.signature.as_slice()),
        one_time_pre_key,
    }
}

} // verus!
