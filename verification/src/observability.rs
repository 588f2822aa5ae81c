//! How the messenger's logs are emitted.

use crate::text::str_eq;
use vstd::prelude::*;

verus! {

/// Whether the value of the `PRESIDIUM_JSON_LOGS` setting asks for JSON logs:
/// exactly `true` or `1`.
pub fn json_logging_enabled(v: &str) -> (r: bool)
    ensures
        r == (v@ == "true"@ || v@ == "1"@),
{
    str_eq(v, "true") || str_eq(v, "1")
}

} // verus!
