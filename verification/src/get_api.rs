//! A greeting.

use vstd::prelude::*;

verus! {

/// The answer to a greeting.
pub fn hello_world() -> (text: &'static str)
    ensures
        text@ == "Hello world"@,
{
    "Hello world"
}

} // verus!
