//! Metadata information for the API collection.

use vstd::prelude::*;

use crate::text::copy_string;

verus! {

/// The schema an API collection follows unless another is given.
pub open spec fn default_schema() -> Seq<char> {
    "https://schema.getpostman.com/json/collection/v2.1.0/collection.json"@
}

/// Metadata information for the API collection.
#[derive(Debug, Clone)]
pub struct Info {
    /// Name of the collection
    pub name: String,
    /// Schema being used for the collection.
    schema: String,
}

impl Info {
    /// The name of the collection.
    pub closed spec fn collection_name(self) -> String {
        self.name
    }

    /// The schema of the collection.
    pub closed spec fn schema_text(self) -> Seq<char> {
        self.schema@
    }

    /// # New
    ///
    /// Creates a new info with a name and the default collection schema.
    pub fn new(name: String) -> (r: Self)
        ensures
            r.collection_name() == name,
            r.schema_text() == default_schema(),
    {
        Info {
            name,
            schema: copy_string("https://schema.getpostman.com/json/collection/v2.1.0/collection.json"),
        }
    }

    /// # With Schema
    ///
    /// Creates a new info with a name and a given schema.
    pub fn with_schema(name: String, schema: String) -> (r: Self)
        ensures
            r.collection_name() == name,
            r.schema_text() == schema@,
    {
        Info { name, schema }
    }

    /// The schema of the collection.
    pub fn schema(&self) -> (r: &String)
        ensures
            r@ == self.schema_text(),
    {
        &self.schema
    }
}

} // verus!
