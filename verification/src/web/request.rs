//! # Request
//!
//! Placeholder for the state of an ongoing request; things related to the
//! request share its lifetime.

use vstd::prelude::*;

verus! {

/// Request placeholder.
pub struct Request {}

impl Request {
    /// Creates the placeholder.
    pub fn parse() -> (r: Self)
        ensures
            r == (Request {}),
    {
        Request {}
    }
}

} // verus!
