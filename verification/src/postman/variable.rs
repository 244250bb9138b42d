//! A collection variable.

use vstd::prelude::*;

verus! {

/// A key and value available to every request of the collection.
#[derive(Debug, Clone)]
pub struct Variable {
    pub key: String,
    pub value: String,
}

impl Variable {
    /// Creates a variable.
    pub fn new(key: String, value: String) -> (r: Self)
        ensures
            r.key == key,
            r.value == value,
    {
        Variable { key, value }
    }
}

} // verus!
