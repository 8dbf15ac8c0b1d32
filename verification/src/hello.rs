//! The smallest contract: a fixed greeting.

use vstd::prelude::*;

verus! {

/// A contract with a single read-only entry point.
pub struct HelloContract;

impl HelloContract {
    /// Returns the greeting, whoever `to` names.
    pub fn hello(to: String) -> (r: String)
        ensures
            r@ == "Hello"@,
    {
        let _ = to;
        "Hello".to_owned()
    }
}

} // verus!
