use vstd::prelude::*;

verus! {

/// The body of a request that registers a user.
#[derive(Clone, Debug)]
pub struct CreateUser {
    pub name: String,
    pub login: String,
    pub password: String,
}

} // verus!
