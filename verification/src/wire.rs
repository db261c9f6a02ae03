use vstd::prelude::*;

verus! {

/// The HTTP methods the protocol issues.
#[derive(Clone, Copy, PartialEq, Eq, Structural, Debug)]
pub enum Method {
    Get,
    Put,
    Post,
    Delete,
}

/// The header values of one request, rebuilt from the session state for
/// every request. The transport turns them into wire headers: `organization`
/// into the tenant-scoping header, `username` and `secret` into an HTTP
/// Basic `Authorization` credential, and `content_type` into `Content-Type`.
#[derive(Clone, Debug)]
pub struct RequestHeaders {
    pub organization: String,
    pub content_type: String,
    pub username: String,
    pub secret: String,
}

/// One request, ready for the transport to send.
#[derive(Clone, Debug)]
pub struct HttpRequest {
    pub method: Method,
    pub url: String,
    pub headers: RequestHeaders,
    pub body: Option<String>,
}

/// One response as the transport hands it back: the status code and the full
/// body text.
#[derive(Clone, Debug)]
pub struct HttpResponse {
    pub status: u16,
    pub body: String,
}

/// The single status code on which each method's round trip counts as
/// success: 200 for GET and PUT, 201 for POST, 204 for DELETE.
pub open spec fn spec_expected_status(m: Method) -> u16 {
    match m {
        Method::Get => 200,
        Method::Put => 200,
        Method::Post => 201,
        Method::Delete => 204,
    }
}

/// Exec counterpart of [`spec_expected_status`].
pub fn expected_status(m: Method) -> (r: u16)
    ensures
        r == spec_expected_status(m),
{
    match m {
        Method::Get => 200,
        Method::Put => 200,
        Method::Post => 201,
        Method::Delete => 204,
    }
}

} // verus!
