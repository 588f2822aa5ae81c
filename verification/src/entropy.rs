//! Random bytes from the operating system.

use rand::RngCore;
use vstd::prelude::*;

verus! {

/// `rand::Error`, the failure of the operating system's random source.
#[verifier::external_type_specification]
#[verifier::external_body]
pub struct ExRandError(rand::Error);

/// Fills an array of `N` bytes from the operating system's generator
/// (`OsRng::try_fill_bytes`), or returns its error. The bytes are random:
/// nothing is claimed of them.
#[verifier::external_body]
pub(crate) fn random_bytes<const N: usize>() -> Result<[u8; N], rand::Error> {
    let mut buf = [0u8; N];
    rand::rngs::OsRng.try_fill_bytes(&mut buf)?;
    Ok(buf)
}

} // verus!
