//! The shape of what the client hands the transport and what it gets back: a
//! request description per operation, and the outcome of sending one.

use vstd::prelude::*;

verus! {

/// The HTTP method of a request.
#[derive(Debug, Clone, Copy, PartialEq, Eq, Structural)]
pub enum Method {
    Get,
    Post,
    Patch,
}

/// Everything the transport needs to send one request: the method and URL,
/// the JSON body if the request carries one, and the access token to attach
/// as the token header if the sender is authenticated. A fixed
/// client-identification header is attached to every request by the
/// transport itself.
#[derive(Debug, Clone, PartialEq, Eq)]
pub struct HttpRequest {
    pub method: Method,
    pub url: String,
    pub body: Option<Vec<u8>>,
    pub token: Option<String>,
}

/// What came back from sending one request: a response with its status code
/// and decoded body, or a transport-level failure. The decode of the body is
/// only meaningful on the success status; for any other status the client
/// ignores it, so the sender may put any value there.
#[derive(Debug, PartialEq, Eq)]
pub enum HttpOutcome<T> {
    Response { status: u16, body: Result<T, String> },
    Failed { message: String },
}

} // verus!
