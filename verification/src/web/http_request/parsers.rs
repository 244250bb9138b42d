//! # Parsers
//!
//! Selects which wire format is used to read requests and to write
//! responses. Configured on the application before it is started.

use vstd::prelude::*;

verus! {

/// HTTP Protocol Parsers
#[derive(Clone, Copy, Debug, PartialEq, Eq, Structural)]
pub enum Parsers {
    /// HTTP/1.1 framing. This is the default parser.
    HttpV1,
}

impl Default for Parsers {
    fn default() -> (r: Self)
        ensures
            r == Parsers::HttpV1,
    {
        Parsers::HttpV1
    }
}

} // verus!
