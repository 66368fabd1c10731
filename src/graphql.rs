use vstd::prelude::*;

verus! {

/// The query root of the operator API.
pub struct Query {}

/// The mutation root of the operator API.
pub struct Mutation;

impl Query {
    /// The version of the operator API.
    pub fn api_version() -> (r: &'static str)
        ensures
            r@ == "1.0"@,
    {
        "1.0"
    }
}

} // verus!
