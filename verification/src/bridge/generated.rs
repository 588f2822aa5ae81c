//! Bindings exposed to foreign code.

use vstd::prelude::*;

verus! {

/// The version of the runtime: the version of this package.
pub open spec fn version_text() -> Seq<char> {
    "0.1.0"@
}

/// The version of the runtime.
pub fn runtime_version() -> (r: &'static str)
    ensures
        r@ == version_text(),
{
    "0.1.0"
}

} // verus!
