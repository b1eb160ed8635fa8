//! Requests and answers as plain values: what is to be sent, and what came back.

use vstd::prelude::*;

verus! {

/// The two request methods that the service is called with.
#[derive(Clone, Copy, Debug, PartialEq, Eq, Structural)]
pub enum Method {
    Get,
    Post,
}

/// A request to send: everything the transport needs, and nothing it decides.
#[derive(Clone, Debug, PartialEq, Eq)]
pub struct HttpRequest {
    pub method: Method,
    pub url: String,
    /// The value of the `Authorization` header.
    pub authorization: String,
    /// The value of the `Content-Type` header, where the request has a body.
    pub content_type: Option<String>,
    pub body: Option<String>,
}

/// What came back for a request, and what its body decodes to. `decoded` is
/// read only where the status says that the request succeeded.
#[derive(Debug, PartialEq, Eq)]
pub struct Answer<T> {
    pub status: u16,
    pub body: String,
    pub decoded: Result<T, String>,
}

/// Whether a status is one of success: 200 to 299.
pub open spec fn status_is_success(status: u16) -> bool {
    200 <= status < 300
}

/// Whether a status is one of success: 200 to 299.
pub fn is_success(status: u16) -> (ok: bool)
    ensures
        ok == status_is_success(status),
{
    200 <= status && status < 300
}

} // verus!
