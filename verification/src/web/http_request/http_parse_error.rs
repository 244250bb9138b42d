//! # HTTP Parse Error
//!
//! Failures met while reading a request head off a connection.

use vstd::prelude::*;

use crate::router::RouterError;

verus! {

#[verifier::external_type_specification]
#[verifier::external_body]
pub struct ExIoError(std::io::Error);

/// # Http Parse Error
///
/// Why a request could not be read.
#[derive(Debug)]
pub enum HttpParseError {
    /// Meta like the method, route, or host was missing.
    MissingRequiredMeta,
    /// An invalid header line was encountered.
    InvalidHeader,
    /// The `content-length` header does not hold a length.
    InvalidContentLength,
    /// Reading from the connection failed.
    IO(std::io::Error),
    /// A chunk size line does not hold a size.
    InvalidBufferSize,
    /// The body uses a transfer encoding that is not supported.
    UnsupportedBody(String),
    /// The router could not resolve the request's route.
    RouterEncounteredError(RouterError),
}

impl From<std::io::Error> for HttpParseError {
    fn from(value: std::io::Error) -> (r: Self) {
        HttpParseError::IO(value)
    }
}

impl vstd::std_specs::convert::FromSpecImpl<std::io::Error> for HttpParseError {
    open spec fn obeys_from_spec() -> bool {
        true
    }

    open spec fn from_spec(value: std::io::Error) -> HttpParseError {
        HttpParseError::IO(value)
    }
}

impl From<RouterError> for HttpParseError {
    fn from(value: RouterError) -> (r: Self) {
        HttpParseError::RouterEncounteredError(value)
    }
}

impl vstd::std_specs::convert::FromSpecImpl<RouterError> for HttpParseError {
    open spec fn obeys_from_spec() -> bool {
        true
    }

    open spec fn from_spec(value: RouterError) -> HttpParseError {
        HttpParseError::RouterEncounteredError(value)
    }
}

} // verus!
