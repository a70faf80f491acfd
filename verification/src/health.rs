//! Telling that the server is there.

use vstd::prelude::*;

verus! {

/// The answer to a health check.
pub fn health_check() -> (text: &'static str)
    ensures
        text@ == "server is running"@,
{
    "server is running"
}

} // verus!
