//! # Route Document
//!
//! Metadata describing a documented route.

use vstd::prelude::*;

verus! {

/// # Route Document
///
/// Can be created from a function that uses the route attribute: the route,
/// the method that invokes it and the user's comments on how to use it.
#[derive(Debug, Clone)]
pub struct RouteDocument {
    route: String,
    method: String,
    docs: String,
}

} // verus!
