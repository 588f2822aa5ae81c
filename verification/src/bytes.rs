//! Byte buffers.

use vstd::prelude::*;

verus! {

/// `n` zero bytes.
pub open spec fn zeros(n: nat) -> Seq<u8> {
    Seq::new(n, |i: int| 0u8)
}

/// A vector of `n` zero bytes.
pub fn zero_bytes(n: usize) -> (r: Vec<u8>)
    ensures
        r@ == zeros(n as nat),
{
    let mut r: Vec<u8> = Vec::new();
    while r.len() < n
        invariant
            r@.len() <= n,
            r@ == zeros(r@.len()),
        decreases n - r@.len(),
    {
        r.push(0u8);
        assert(r@ =~= zeros(r@.len()));
    }
    r
}

} // verus!
