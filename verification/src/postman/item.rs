//! An item of the collection: a request, or a folder of items.

use vstd::prelude::*;

use crate::postman::Request;

verus! {

/// An item of the collection: a documented request, or a folder (whose
/// request is empty) holding further items.
#[derive(Debug)]
pub struct Item {
    pub name: String,
    pub request: Request,
    pub item: Vec<Box<Item>>,
}

impl Item {
    /// # Create
    ///
    /// Creates an item for a request.
    pub fn create(name: String, request: Request) -> (r: Self)
        ensures
            r.name == name,
            r.request == request,
            r.item@.len() == 0,
    {
        Item { name, request, item: Vec::new() }
    }

    /// # Is Folder
    ///
    /// Determines if the item is a folder: its request is empty.
    pub fn is_folder(&self) -> (r: bool)
        ensures
            r == self.request.blank(),
    {
        self.request.is_default()
    }

    /// # Folder
    ///
    /// Creates a new, empty folder.
    pub fn folder(name: String) -> (r: Self)
        ensures
            r.name == name,
            r.item@.len() == 0,
            r.request.blank(),
    {
        Item { name, item: Vec::new(), request: Request::folder_request() }
    }
}

} // verus!
