//! # App
//!
//! The parts of the application lifecycle that are pure computation: the
//! configuration held while the application is closed, and how a module's
//! base route and a route added to it combine.

mod module;

use vstd::prelude::*;

pub use module::{combine_route, combined_route};

use crate::web::http_request::Parsers;

verus! {

/// Marker state indicating the application is bound to a socket but not yet
/// accepting connections. Routes and parser settings may be configured while
/// in this state.
pub struct Closed {
    http_parser: Option<Parsers>,
}

impl Closed {
    /// The parser chosen so far, if any.
    pub closed spec fn chosen(self) -> Option<Parsers> {
        self.http_parser
    }

    /// The closed state of a freshly bound application: no parser chosen.
    pub fn new() -> (r: Closed)
        ensures
            r.chosen() is None,
    {
        Closed { http_parser: None }
    }

    /// The closed state that a running application returns to, keeping its parser.
    pub fn with_parser(parser: Parsers) -> (r: Closed)
        ensures
            r.chosen() == Some(parser),
    {
        Closed { http_parser: Some(parser) }
    }

    /// Set the parser to use for parsing incoming HTTP requests.
    pub fn set_parser(&mut self, selected: Parsers)
        ensures
            final(self).chosen() == Some(selected),
    {
        self.http_parser = Some(selected);
    }

    /// The parser the application runs with: the chosen one, else the default.
    pub fn parser(&self) -> (r: Parsers)
        ensures
            r == match self.chosen() {
                Some(p) => p,
                None => Parsers::HttpV1,
            },
    {
        match self.http_parser {
            Some(p) => p,
            None => Parsers::HttpV1,
        }
    }
}

} // verus!
