//! HTTP requests to the provider APIs, as the library asks for them and as
//! their outcome comes back.

use vstd::prelude::*;
use crate::json::{json_wf, Json};

verus! {

#[derive(Clone, Copy, Debug, PartialEq, Eq, Structural)]
pub enum Method {
    Get,
    Post,
    Patch,
}

/// Which credential authorises a request.
#[derive(Clone, Copy, Debug, PartialEq, Eq, Structural)]
pub enum Credential {
    /// `GOOGLE_ACCESS_TOKEN`, sent as a bearer token.
    Google,
    /// `LINEAR_API_KEY`, sent as the `Authorization` header.
    Linear,
}

/// A request to send. `read_json` tells whether the response body is to be
/// read as JSON; when it is not, a success is reported as `Null`.
pub struct HttpRequest {
    pub method: Method,
    pub url: String,
    pub credential: Credential,
    pub body: Option<Json>,
    pub read_json: bool,
}

/// The body of a request, if any, is a well-formed JSON value.
pub open spec fn request_wf(r: HttpRequest) -> bool {
    match r.body {
        Some(b) => json_wf(b),
        None => true,
    }
}

/// Why a request did not give a JSON response.
#[derive(Debug)]
pub enum HttpFailure {
    /// The credential's environment variable is not set.
    MissingCredential,
    /// The request could not be sent.
    Send(String),
    /// The server answered with an error status.
    Status(String),
    /// The response body is not JSON.
    Body(String),
}

} // verus!
