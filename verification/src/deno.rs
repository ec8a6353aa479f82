//! Deno version detection.
//!
//! Deno projects do not pin runtime versions in a standard configuration
//! file, so resolution always asks for the latest version.

use vstd::prelude::*;

verus! {

/// The version used for Deno projects.
pub fn get_deno_version() -> (r: String)
    ensures
        r@ == "latest"@,
{
    "latest".to_owned()
}

} // verus!
