use vstd::prelude::*;

verus! {

/// Settings of the connection pool to the task database.
#[derive(Debug, Clone, PartialEq, Eq)]
pub struct DBOptions {
    /// Connection parameters, as a URL or a key-value string.
    pub pg_params: String,
    pub pool_max_size: u32,
}

} // verus!
