//! The passive response value type: a status code, a header multimap and a
//! byte payload, immutable once constructed.

use vstd::prelude::*;
use crate::request::Headers;

verus! {

/// The status of a client-error response rejecting an over-long body.
pub const STATUS_BAD_REQUEST: u16 = 400;

/// The status of a server-error response reporting a transport fault.
pub const STATUS_INTERNAL_SERVER_ERROR: u16 = 500;

/// A response: status code, headers and a byte payload.
#[derive(Debug)]
pub struct Response {
    /// The status code.
    pub status: u16,
    /// The response headers.
    pub headers: Headers,
    /// The payload bytes.
    pub body: Vec<u8>,
}

impl Response {
    /// A response with the given status, no headers and an empty payload.
    pub fn with_status(status: u16) -> (r: Response)
        ensures
            r.status == status,
            r.headers@.len() == 0,
            r.body@.len() == 0,
    {
        Response { status, headers: Headers::new(), body: Vec::new() }
    }

    /// Whether the status lies in the client-error family.
    pub fn is_client_error(&self) -> (r: bool)
        ensures
            r == (400 <= self.status < 500),
    {
        400 <= self.status && self.status < 500
    }

    /// Whether the status lies in the server-error family.
    pub fn is_server_error(&self) -> (r: bool)
        ensures
            r == (500 <= self.status < 600),
    {
        500 <= self.status && self.status < 600
    }
}

} // verus!
