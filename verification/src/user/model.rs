//! Accounts and session tokens.

use vstd::prelude::*;

verus! {

/// The credentials a client submits to sign up or sign in.
pub struct User {
    pub name: String,
    pub pass: String,
}

/// What a session token holds: whose session it is and when it expires
/// (seconds since the Unix epoch).
pub struct Claims {
    pub name: String,
    pub exp: u128,
}

} // verus!
