//! Credential and session core for a note-taking service: salted password
//! hashing, access/refresh token issuance and stateless verification, and the
//! decision logic of the user-store gateway and the authentication flows.

use vstd::prelude::*;

pub mod config;
pub mod errors;
pub mod models;
pub mod password;
pub mod service;
pub mod store;
pub mod token;

verus! {

/// Builds the greeting returned to a caller checking that the bridge is alive.
pub fn greet(name: String) -> (r: String)
    ensures
        r@ == "Hello, "@ + name@ + "!"@,
{
    let mut s: String = "Hello, ".to_owned();
    s.append(name.as_str());
    s.append("!");
    s
}

} // verus!
