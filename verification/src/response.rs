//! Responses as the dispatch logic sees them.

use crate::headers::{header_entries, new_header_map, HeaderEntries, Headers};
use vstd::prelude::*;

verus! {

/// 302 Found: the form-post redirect.
pub const STATUS_FOUND: u16 = 302;

/// 400 Bad Request: no procedure is registered under the path.
pub const STATUS_BAD_REQUEST: u16 = 400;

/// 406 Not Acceptable: the client does not take HTML.
pub const STATUS_NOT_ACCEPTABLE: u16 = 406;

/// 500 Internal Server Error: a failure without a status of its own.
pub const STATUS_INTERNAL_SERVER_ERROR: u16 = 500;

/// An HTTP status code: a number from 100 to 999.
#[derive(Clone, Copy, Debug, PartialEq, Eq, Structural)]
pub struct Status {
    code: u16,
}

impl Status {
    #[verifier::type_invariant]
    spec fn in_range(self) -> bool {
        100 <= self.code <= 999
    }

    /// The number of this status.
    pub closed spec fn number(self) -> u16 {
        self.code
    }

    /// The status with the given number, if the number is one of a status.
    pub fn new(code: u16) -> (status: Option<Status>)
        ensures
            status is Some <==> 100 <= code <= 999,
            status matches Some(made) ==> made.number() == code,
    {
        if 100 <= code && code <= 999 {
            Some(Status { code })
        } else {
            None
        }
    }

    /// The number of this status, which is from 100 to 999.
    pub fn get(self) -> (code: u16)
        ensures
            code == self.number(),
            100 <= code <= 999,
    {
        proof {
            use_type_invariant(&self);
        }
        self.code
    }

    /// 302 Found.
    pub fn found() -> (status: Status)
        ensures
            status.number() == STATUS_FOUND,
    {
        Status { code: STATUS_FOUND }
    }

    /// 400 Bad Request.
    pub fn bad_request() -> (status: Status)
        ensures
            status.number() == STATUS_BAD_REQUEST,
    {
        Status { code: STATUS_BAD_REQUEST }
    }

    /// 406 Not Acceptable.
    pub fn not_acceptable() -> (status: Status)
        ensures
            status.number() == STATUS_NOT_ACCEPTABLE,
    {
        Status { code: STATUS_NOT_ACCEPTABLE }
    }

    /// 500 Internal Server Error.
    pub fn internal_server_error() -> (status: Status)
        ensures
            status.number() == STATUS_INTERNAL_SERVER_ERROR,
    {
        Status { code: STATUS_INTERNAL_SERVER_ERROR }
    }
}

/// The status line and headers of a response. The body travels beside it,
/// untouched.
pub struct ResponseHead {
    pub status: Status,
    pub headers: Headers,
}

impl ResponseHead {
    /// The headers of this response, by name.
    pub open spec fn entries(&self) -> HeaderEntries {
        header_entries(self.headers)
    }

    /// A response head with the given status and no headers.
    pub fn new(status: Status) -> (head: ResponseHead)
        ensures
            head.status == status,
            head.entries() == HeaderEntries::empty(),
    {
        ResponseHead { status, headers: new_header_map() }
    }
}

/// A response that is made here and ends the request: a status, no headers,
/// and a body of text, which may be empty.
pub struct LocalResponse {
    pub status: Status,
    pub body: String,
}

impl LocalResponse {
    /// A response with the given status and an empty body.
    pub fn empty(status: Status) -> (response: LocalResponse)
        ensures
            response.status == status,
            response.body@ == Seq::<char>::empty(),
    {
        LocalResponse { status, body: String::new() }
    }
}

} // verus!
