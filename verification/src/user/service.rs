//! Rules on credentials.

use vstd::prelude::*;
use crate::text::{trimmed_byte_len, trimmed_len};
use crate::user::model::User;

verus! {

/// Shortest allowed name or password, in bytes once trimmed.
pub const MIN_CREDENTIAL_LEN: u128 = 5;

/// Longest allowed name or password, in bytes once trimmed.
pub const MAX_CREDENTIAL_LEN: u128 = 32;

/// Credentials with a name or a password that is too short once trimmed.
pub open spec fn credentials_too_short(name: Seq<char>, pass: Seq<char>) -> bool {
    trimmed_len(name) < MIN_CREDENTIAL_LEN || trimmed_len(pass) < MIN_CREDENTIAL_LEN
}

/// Credentials with a name or a password that is too long once trimmed.
pub open spec fn credentials_too_long(name: Seq<char>, pass: Seq<char>) -> bool {
    trimmed_len(name) > MAX_CREDENTIAL_LEN || trimmed_len(pass) > MAX_CREDENTIAL_LEN
}

/// Checks on submitted credentials.
pub struct Validation;

impl Validation {
    /// Whether the name or the password has fewer than 5 bytes once leading
    /// and trailing white space is cut off.
    pub fn is_too_short(user: &User) -> (b: bool)
        ensures
            b == credentials_too_short(user.name@, user.pass@),
            b <==> (trimmed_len(user.name@) < 5 || trimmed_len(user.pass@) < 5),
    {
        trimmed_byte_len(user.name.as_str()) < MIN_CREDENTIAL_LEN || trimmed_byte_len(user.pass.as_str())
            < MIN_CREDENTIAL_LEN
    }

    /// Whether the name or the password has more than 32 bytes once leading
    /// and trailing white space is cut off.
    pub fn is_too_long(user: &User) -> (b: bool)
        ensures
            b == credentials_too_long(user.name@, user.pass@),
            b <==> (trimmed_len(user.name@) > 32 || trimmed_len(user.pass@) > 32),
    {
        trimmed_byte_len(user.name.as_str()) > MAX_CREDENTIAL_LEN || trimmed_byte_len(user.pass.as_str())
            > MAX_CREDENTIAL_LEN
    }
}

} // verus!
