//! The health-check endpoint.

use vstd::prelude::*;

use crate::endpoint::Method;

verus! {

/// Ping the Lettermint API to verify connectivity and credentials.
pub struct PingRequest;

/// The empty body of a ping request.
#[derive(Debug)]
pub struct EmptyBody;

/// Response from the ping endpoint: the bare status number the API sends back.
#[derive(Debug, Clone, Copy, PartialEq, Eq)]
pub struct PingResponse {
    pub status: u16,
}

impl PingRequest {
    /// The API path of the ping endpoint.
    pub fn endpoint(&self) -> (path: &'static str)
        ensures
            path@ == "ping"@,
    {
        "ping"
    }

    /// The request body, which is empty.
    pub fn body(&self) -> (body: EmptyBody)
        ensures
            body == EmptyBody,
    {
        EmptyBody
    }

    /// Ping is sent with `GET`.
    pub fn method(&self) -> (m: Method)
        ensures
            m == Method::Get,
    {
        Method::Get
    }
}

} // verus!
