use vstd::prelude::*;

verus! {

/// The record exchanged on the login route: a user name and a password,
/// both free-form text.
#[derive(Debug, PartialEq, Eq)]
pub struct LoginRequest {
    pub username: String,
    pub password: String,
}

impl LoginRequest {
    pub fn new(username: String, password: String) -> (r: LoginRequest)
        ensures
            r.username@ == username@,
            r.password@ == password@,
    {
        LoginRequest { username, password }
    }
}

} // verus!
