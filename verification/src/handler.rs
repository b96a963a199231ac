//! The handler contract: a handler takes a request whose body is fully
//! materialized and returns a response or an application error. The
//! extractor sits strictly before handler invocation, so a handler never
//! observes a partial body.

use vstd::prelude::*;
use crate::bytes_request::BytesRequest;
use crate::response::Response;

verus! {

/// An application-level error. This crate neither inspects nor retries it;
/// it is handed, type-erased, to an external error renderer.
#[derive(PartialEq, Eq, Clone, Debug)]
pub struct HandlerError {
    /// The error's detail text.
    pub detail: String,
}

/// A type-erased application error, as handlers hand it back.
pub type BoxError = Box<HandlerError>;

/// What a handler returns: a response, or an application error for the
/// external error renderer.
pub type HandlerResult = Result<Response, BoxError>;

/// Moves a concrete error behind an owning pointer, preserving its value.
pub fn box_error(error: HandlerError) -> (r: BoxError)
    ensures
        r == error,
{
    Box::new(error)
}

/// A handler takes a request and returns a response or an error, invoked
/// only after extraction succeeds. Implementations must be safely invokable
/// from multiple concurrent worker contexts.
pub trait Handler: Sync + Send {
    /// Handles one fully buffered request.
    fn call(&self, request: &mut BytesRequest) -> HandlerResult;
}

} // verus!
