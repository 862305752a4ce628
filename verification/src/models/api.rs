//! Bodies and statuses of the JSON replies the server sends.

use vstd::prelude::*;

verus! {

/// A reply body whose detail text borrows from elsewhere.
pub struct APIResult<'a> {
    pub success: bool,
    pub detail: &'a str,
}

/// A reply body with a fixed detail text.
pub struct APIStaticResult {
    pub success: bool,
    pub detail: &'static str,
}

/// The generic outcomes of a request.
pub struct APIResponse;

impl APIResponse {
    /// The request was carried out.
    #[verifier::allow_in_spec]
    pub fn success() -> APIStaticResult
        returns
            (APIStaticResult { success: true, detail: "" }),
    {
        APIStaticResult { success: true, detail: "" }
    }

    /// The request could not be carried out.
    #[verifier::allow_in_spec]
    pub fn failure() -> APIStaticResult
        returns
            (APIStaticResult { success: false, detail: "" }),
    {
        APIStaticResult { success: false, detail: "" }
    }
}

/// HTTP status of a reply.
#[derive(PartialEq, Eq, Structural, Clone, Copy, Debug)]
pub enum HttpStatus {
    Success,
    BadRequest,
    Unauthorized,
    InternalServerError,
}

/// A JSON reply: a status and a body `{ success, detail }`.
pub struct Reply {
    pub status: HttpStatus,
    pub success: bool,
    pub detail: String,
}

impl View for Reply {
    type V = (HttpStatus, bool, Seq<char>);

    open spec fn view(&self) -> (HttpStatus, bool, Seq<char>) {
        (self.status, self.success, self.detail@)
    }
}

/// The reply with status `status` and body `body`.
pub open spec fn reply_view(status: HttpStatus, body: APIStaticResult) -> (HttpStatus, bool, Seq<char>) {
    (status, body.success, body.detail@)
}

impl Reply {
    /// A reply with status `status` and a fixed body.
    pub fn of(status: HttpStatus, body: APIStaticResult) -> (r: Reply)
        ensures
            r@ == reply_view(status, body),
    {
        Reply { status, success: body.success, detail: String::from_str(body.detail) }
    }

    /// A reply with status `status` and a body that borrows its detail.
    pub fn of_result(status: HttpStatus, body: APIResult) -> (r: Reply)
        ensures
            r@ == (status, body.success, body.detail@),
    {
        Reply { status, success: body.success, detail: String::from_str(body.detail) }
    }
}

} // verus!
