//! Entry points for platform bindings (Kotlin, Swift, C).

pub mod generated;

use crate::bridge::generated::{runtime_version, version_text};
use vstd::prelude::*;
use vstd::string::StringExecFns;

verus! {

/// Initialises the runtime from a platform entry point and returns its banner,
/// `Presidium v<version>`.
pub fn initialize_runtime() -> (r: Result<String, String>)
    ensures
        r matches Ok(s) && s@ == "Presidium v"@ + version_text(),
{
    let mut s = String::from_str("Presidium v");
    s.append(runtime_version());
    Ok(s)
}

} // verus!
