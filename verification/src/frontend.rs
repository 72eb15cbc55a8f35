//! The identity of the mining frontend.

use vstd::prelude::*;

verus! {

/// The bOSminer frontend.
#[derive(Debug)]
pub struct Frontend;

impl Frontend {
    /// The name under which the frontend presents itself.
    pub fn to_string(&self) -> (s: String)
        ensures
            s@ == "bOSminer"@,
    {
        "bOSminer".to_string()
    }
}

} // verus!
