//! Generation of identity key pairs.

use crate::crypto::keypair::IdentityKeyPair;
use crate::domain::errors::DomainError;
use crate::entropy::random_bytes;
use vstd::prelude::*;
use vstd::string::StringExecFns;

verus! {

/// The identity key pair made from two draws of 32 random bytes: the first
/// draw is the public key, the second the private key. If either draw
/// failed, key generation failed.
pub fn keypair_from_draws(
    public_key: Result<[u8; 32], rand::Error>,
    private_key: Result<[u8; 32], rand::Error>,
) -> (r: Result<IdentityKeyPair, DomainError>)
    ensures
        match (public_key, private_key) {
            (Ok(p), Ok(q)) => r matches Ok(kp) && kp.public_key == p && kp.private_key == q,
            _ => r matches Err(DomainError::OperationFailed(t)) && t@ == "key generation failed"@,
        },
{
    match (public_key, private_key) {
        (Ok(p), Ok(q)) => Ok(IdentityKeyPair { public_key: p, private_key: q }),
        _ => Err(DomainError::OperationFailed(String::from_str("key generation failed"))),
    }
}

/// Generates an identity key pair from the operating system's random source
/// (see [`keypair_from_draws`]). Its only failure is that source failing,
/// reported as `OperationFailed`.
pub fn generate_identity_keypair() -> (r: Result<IdentityKeyPair, DomainError>)
    ensures
        r matches Err(e) ==> (e matches DomainError::OperationFailed(t) && t@
            == "key generation failed"@),
{
    let public_key = random_bytes::<32>();
    let private_key = random_bytes::<32>();
    keypair_from_draws(public_key, private_key)
}

} // verus!
