//! A documented request.

use vstd::prelude::*;

use crate::postman::{Url, base_url, url_path};
use crate::text::{chars_of, split_by};

verus! {

/// A request of the collection: its method, its description and its URL.
#[derive(Debug, Clone)]
pub struct Request {
    pub method: String,
    pub description: String,
    pub url: Url,
}

impl Request {
    /// The request is blank, as that of a folder is: no method, no
    /// description, the empty URL.
    pub open spec fn blank(self) -> bool {
        &&& self.method@.len() == 0
        &&& self.description@.len() == 0
        &&& self.url.raw_text().len() == 0
        &&& self.url.hosts().len() == 0
        &&& self.url.segments().len() == 0
    }

    /// # New
    ///
    /// Creates a request for `path` with the given method and description (empty
    /// when none is given); its URL is `path` on the collection's base URL.
    pub fn new(name: String, path: String, method: String, description: Option<String>) -> (r: Self)
        ensures
            r.method == method,
            r.description@ == (match description {
                Some(d) => d@,
                None => Seq::<char>::empty(),
            }),
            r.url.hosts() == seq!["{{base_url}}"@],
            r.url.segments() == url_path(split_by(path@, '/')),
            r.url.raw_text() == "{{base_url}}"@ + (if path@.len() > 0 && path@[0] == '/' {
                Seq::<char>::empty()
            } else {
                "/"@
            }) + path@,
    {
        let description = match description {
            Some(d) => d,
            None => String::new(),
        };
        Request { method, description, url: Url::new(base_url(), path) }
    }

    /// The request of a folder: no method, no description, the empty URL.
    pub fn folder_request() -> (r: Self)
        ensures
            r.blank(),
    {
        Request { method: String::new(), description: String::new(), url: Url::empty() }
    }

    /// Whether this is the request of a folder.
    pub fn is_default(&self) -> (r: bool)
        ensures
            r == self.blank(),
    {
        let m = chars_of(self.method.as_str());
        let d = chars_of(self.description.as_str());
        m.len() == 0 && d.len() == 0 && self.url.is_empty()
    }
}

impl Default for Request {
    fn default() -> (r: Self)
        ensures
            r.blank(),
    {
        Request::folder_request()
    }
}

} // verus!
