//! A request whose body has been fully materialized into one contiguous
//! byte buffer, and the extraction step that produces it from a streamed
//! request. Downstream handler code never observes a partial body.

use vstd::prelude::*;
use crate::extract::{
    chunk_views, concat_bytes, error_response, extract_body, extraction_ok,
    extraction_stream_error, extraction_too_large, SizeLimit, StreamEnd,
};
use crate::request::{Headers, Method, RequestHead};
use crate::response::{Response, STATUS_BAD_REQUEST, STATUS_INTERNAL_SERVER_ERROR};

verus! {

/// A request carrying a fully buffered body: the metadata head of the
/// original streaming request, unchanged, and the materialized bytes.
#[derive(Debug)]
pub struct BytesRequest {
    /// The request metadata, shared with the streaming request it came from.
    pub head: RequestHead,
    /// The materialized body.
    pub body: Vec<u8>,
}

impl BytesRequest {
    /// The request method.
    pub fn method(&self) -> (r: &Method)
        ensures
            *r == self.head.method,
    {
        &self.head.method
    }

    /// The request URI.
    pub fn uri(&self) -> (r: &String)
        ensures
            r@ == self.head.uri@,
    {
        &self.head.uri
    }

    /// The request headers.
    pub fn headers(&self) -> (r: &Headers)
        ensures
            r@ == self.head.headers@,
    {
        &self.head.headers
    }

    /// The exact byte length of the materialized body. This is authoritative
    /// and overrides whatever length a header of the streaming request may
    /// have claimed.
    pub fn content_length(&self) -> (r: Option<u64>)
        ensures
            r == Some(self.body@.len() as u64),
    {
        Some(self.body.len() as u64)
    }

    /// The materialized body bytes.
    pub fn body(&self) -> (r: &Vec<u8>)
        ensures
            r@ == self.body@,
    {
        &self.body
    }

    /// Materializes a streamed request under the given size policy.
    ///
    /// The streaming request is consumed: its head passes through unchanged
    /// and its body — the chunks the transport delivered, in order, with the
    /// stream's terminal signal — becomes one contiguous buffer. On failure
    /// the rejection is already a protocol-correct response: the client-error
    /// status for a body past the bound, the server-error status for a
    /// transport fault, in both cases with no headers and no payload.
    pub fn from_request(
        head: RequestHead,
        policy: SizeLimit,
        chunks: &Vec<Vec<u8>>,
        end: StreamEnd,
    ) -> (r: Result<BytesRequest, Response>)
        ensures
            (r is Ok) <==> extraction_ok(policy, chunk_views(chunks@), end),
            r matches Ok(req) ==> req.head == head && req.body@ == concat_bytes(
                chunk_views(chunks@),
            ),
            r matches Err(resp) ==> resp.headers@.len() == 0 && resp.body@.len() == 0,
            extraction_too_large(policy, chunk_views(chunks@)) ==> (r matches Err(resp)
                && resp.status == STATUS_BAD_REQUEST),
            extraction_stream_error(policy, chunk_views(chunks@), end) ==> (r matches Err(resp)
                && resp.status == STATUS_INTERNAL_SERVER_ERROR),
    {
        match extract_body(policy, chunks, end) {
            Ok(body) => Ok(BytesRequest { head, body }),
            Err(failure) => Err(error_response(&failure)),
        }
    }
}

} // verus!
