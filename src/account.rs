use vstd::prelude::*;

verus! {

/// A buyer identity: its id (a 128-bit UUID), a nickname and the bearer
/// token its reservations are sent with.
#[derive(Debug, Clone, PartialEq, Eq, Default)]
pub struct KideAccount {
    pub uuid: u128,
    pub name: String,
    pub token: String,
}

impl KideAccount {
    pub fn new(uuid: u128, name: String, token: String) -> (r: Self)
        ensures
            r.uuid == uuid,
            r.name == name,
            r.token == token,
    {
        KideAccount { uuid, name, token }
    }
}

} // verus!
