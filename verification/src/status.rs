//! HTTP status codes as plain numbers, checked against `hyper`.

use vstd::prelude::*;

verus! {

/// Whether `n` lies in the range of numbers that are HTTP status codes.
pub open spec fn is_status_number(n: u16) -> bool {
    100 <= n < 1000
}

/// An HTTP status code, held by its number.
#[derive(Clone, Copy, Debug, PartialEq, Eq, Structural)]
pub struct Status {
    pub code: u16,
}

/// Asks `hyper::StatusCode::from_u16` whether it takes `n`. That function
/// refuses every number under 100 and every number from 1000 on, and takes
/// all others.
#[verifier::external_body]
fn status_code_exists(n: u16) -> (r: bool)
    ensures
        r == is_status_number(n),
{
    hyper::StatusCode::from_u16(n).is_ok()
}

/// The number of `hyper::StatusCode::METHOD_NOT_ALLOWED`, read with
/// `StatusCode::as_u16`: 405.
#[verifier::external_body]
fn method_not_allowed_number() -> (r: u16)
    ensures
        r == 405,
{
    hyper::StatusCode::METHOD_NOT_ALLOWED.as_u16()
}

/// The number of `hyper::StatusCode::SERVICE_UNAVAILABLE`, read with
/// `StatusCode::as_u16`: 503.
#[verifier::external_body]
fn service_unavailable_number() -> (r: u16)
    ensures
        r == 503,
{
    hyper::StatusCode::SERVICE_UNAVAILABLE.as_u16()
}

impl Status {
    /// A status is well formed when its number is a status code.
    pub open spec fn wf(&self) -> bool {
        is_status_number(self.code)
    }

    /// Whether the status is a client error (400 to 499).
    pub open spec fn spec_is_client_error(&self) -> bool {
        400 <= self.code < 500
    }

    /// Whether the status is a server error (500 to 599).
    pub open spec fn spec_is_server_error(&self) -> bool {
        500 <= self.code < 600
    }

    /// The status with number `n`, where `n` is a status code.
    pub fn from_u16(n: u16) -> (r: Option<Status>)
        ensures
            r.is_some() <==> is_status_number(n),
            r.is_some() ==> r.unwrap().code == n && r.unwrap().wf(),
    {
        if status_code_exists(n) {
            Some(Status { code: n })
        } else {
            None
        }
    }

    /// 405 Method Not Allowed.
    pub fn method_not_allowed() -> (r: Status)
        ensures
            r.code == 405,
            r.wf(),
            r.spec_is_client_error(),
    {
        Status { code: method_not_allowed_number() }
    }

    /// 503 Service Unavailable.
    pub fn service_unavailable() -> (r: Status)
        ensures
            r.code == 503,
            r.wf(),
            r.spec_is_server_error(),
    {
        Status { code: service_unavailable_number() }
    }

    /// The status code's number.
    pub fn as_u16(&self) -> (r: u16)
        ensures
            r == self.code,
    {
        self.code
    }

    #[verifier::when_used_as_spec(spec_is_client_error)]
    pub fn is_client_error(&self) -> (r: bool)
        ensures
            r == self.spec_is_client_error(),
    {
        400 <= self.code && self.code < 500
    }

    #[verifier::when_used_as_spec(spec_is_server_error)]
    pub fn is_server_error(&self) -> (r: bool)
        ensures
            r == self.spec_is_server_error(),
    {
        500 <= self.code && self.code < 600
    }
}

} // verus!
