//! # Router Error
//!
//! Error type surfaced by [`Router`](crate::router::Router) and
//! [`Node`](crate::router::Node) during route registration and lookup.

use vstd::prelude::*;

verus! {

/// # Router Error
///
/// Enumerates the failure modes encountered when registering or resolving a
/// route within the router.
#[derive(Debug, Clone, Copy, PartialEq, Eq, Structural)]
pub enum RouterError {
    /// A route with the same method and path already exists.
    AlreadyExist,
    /// A segment of the supplied route is invalid (for example, empty).
    BadName,
    /// No route in the trie matches the requested path and method.
    NotFound,
    /// A node could not be added.
    CouldNotAdd,
}

} // verus!
