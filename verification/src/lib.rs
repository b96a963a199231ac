//! A minimal, framework-agnostic abstraction for handling HTTP-like requests:
//! passive request/response value types, a configurable body-size policy, a
//! bounded body extractor that materializes a chunked body stream into one
//! contiguous buffer, and a mapper from extraction failures to status-coded
//! responses.

pub mod bytes_request;
pub mod extract;
pub mod handler;
pub mod request;
pub mod response;
