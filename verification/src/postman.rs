//! # Postman
//!
//! The data model of the API-collection document that describes the routes
//! of an application: the collection's info, its variables, and one item per
//! documented route, grouped in folders per module.

mod api_schema;
mod info;
mod item;
mod request;
mod route_document;
mod url;
mod variable;

use vstd::prelude::*;

pub use api_schema::{
    ApiSchema,
    filed_under,
    first_named,
    first_same_key,
    item_key,
    items_after_add,
    lemma_add_item_keeps_keys_unique,
    name_index,
    same_key_index,
    unique_keys,
};
pub use info::{Info, default_schema};
pub use item::Item;
pub use request::Request;
pub use route_document::RouteDocument;
pub use url::{Url, strings, url_path};
pub use variable::Variable;

use crate::text::copy_string;

verus! {

/// The placeholder for the base URL of the collection's requests.
pub fn base_url() -> (r: String)
    ensures
        r@ == "{{base_url}}"@,
{
    copy_string("{{base_url}}")
}

} // verus!
