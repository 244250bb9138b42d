//! # Resolution
//!
//! Placeholder for the resolution of a request; things will be built on top
//! of it, and it lasts as long as the request itself.

use vstd::prelude::*;

verus! {

/// Resolution placeholder.
pub struct Resolution;

impl Resolution {
    /// Sets the status of the resolution; the placeholder keeps no state.
    pub fn status(&mut self, code: i32)
        ensures
            *final(self) == *old(self),
    {
    }

    /// Creates the placeholder.
    pub fn new() -> (r: Self)
        ensures
            r == Resolution,
    {
        Resolution {}
    }
}

} // verus!
