//! The fixed reply bodies of the user endpoints.

use vstd::prelude::*;
use crate::models::api::APIStaticResult;

verus! {
/// Rejections of credentials that are too short or too long.
pub struct ValidationError;

impl ValidationError {
    /// A name or password shorter than allowed.
    #[verifier::allow_in_spec]
    pub fn too_short() -> APIStaticResult
        returns
            (APIStaticResult { success: false, detail: "Username and Password need to be atleast 5 characters" }),
    {
        APIStaticResult { success: false, detail: "Username and Password need to be atleast 5 characters" }
    }

    /// A name or password longer than allowed.
    #[verifier::allow_in_spec]
    pub fn too_long() -> APIStaticResult
        returns
            (APIStaticResult { success: false, detail: "Username and Password need to be atleast 5 characters" }),
    {
        APIStaticResult { success: false, detail: "Username and Password need to be atleast 5 characters" }
    }
}

/// Outcomes of signing in, up and out.
pub struct Sign;

impl Sign {
    /// The user is signed in.
    #[verifier::allow_in_spec]
    pub fn success() -> APIStaticResult
        returns
            (APIStaticResult { success: true, detail: "Logged in" }),
    {
        APIStaticResult { success: true, detail: "Logged in" }
    }

    /// The client is already signed in.
    #[verifier::allow_in_spec]
    pub fn signed() -> APIStaticResult
        returns
            (APIStaticResult { success: false, detail: "Already sign in" }),
    {
        APIStaticResult { success: false, detail: "Already sign in" }
    }

    /// The user is signed out.
    #[verifier::allow_in_spec]
    pub fn out() -> APIStaticResult
        returns
            (APIStaticResult { success: true, detail: "Sign out" }),
    {
        APIStaticResult { success: true, detail: "Sign out" }
    }

    /// The name or the password does not match.
    #[verifier::allow_in_spec]
    pub fn incorrect() -> APIStaticResult
        returns
            (APIStaticResult { success: false, detail: "Username or Password is incorrect" }),
    {
        APIStaticResult { success: false, detail: "Username or Password is incorrect" }
    }

    /// A user of that name exists already.
    #[verifier::allow_in_spec]
    pub fn existed() -> APIStaticResult
        returns
            (APIStaticResult { success: false, detail: "This user is already existed" }),
    {
        APIStaticResult { success: false, detail: "This user is already existed" }
    }

    /// The client is not signed in.
    #[verifier::allow_in_spec]
    pub fn unauthorized() -> APIStaticResult
        returns
            (APIStaticResult { success: false, detail: "Unauthorized" }),
    {
        APIStaticResult { success: false, detail: "Unauthorized" }
    }
}

/// Failures around the session token.
pub struct JWTError;

impl JWTError {
    /// No token could be made.
    #[verifier::allow_in_spec]
    pub fn creation() -> APIStaticResult
        returns
            (APIStaticResult { success: false, detail: "Unable to create token" }),
    {
        APIStaticResult { success: false, detail: "Unable to create token" }
    }

    /// The token could not be read.
    #[verifier::allow_in_spec]
    pub fn invalid() -> APIStaticResult
        returns
            (APIStaticResult { success: false, detail: "Invalid Token" }),
    {
        APIStaticResult { success: false, detail: "Invalid Token" }
    }

    /// The token is too old to be renewed.
    #[verifier::allow_in_spec]
    pub fn expired() -> APIStaticResult
        returns
            (APIStaticResult { success: false, detail: "Token Expired" }),
    {
        APIStaticResult { success: false, detail: "Token Expired" }
    }
}

} // verus!
