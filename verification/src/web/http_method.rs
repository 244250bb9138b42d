//! # HTTP Method
//!
//! Defines [`HttpMethod`], the enum used throughout the crate to identify
//! the verb of an incoming request or of a registered route.

use vstd::prelude::*;

use crate::text::{chars_eq, chars_of, spec_trim, spec_uppercase, to_uppercase, trim};

verus! {

/// # Http Method
///
/// HTTP defines a set of request methods to indicate the purpose of the request and what is
/// expected if the request is successful. Each request method has its own semantics, but
/// some characteristics are shared across multiple methods, specifically request methods can
/// be safe, idempotent, or cacheable.
#[derive(Debug, Hash)]
pub enum HttpMethod {
    /// The GET method requests a representation of the specified resource.
    GET,
    /// The POST method submits an entity to the specified resource.
    POST,
    /// The PATCH method applies partial modifications to a resource.
    PATCH,
    /// The PUT method replaces all current representations of the target resource.
    PUT,
    /// The DELETE method deletes the specified resource.
    DELETE,
    /// The HEAD method asks for a response identical to a GET request, but without a body.
    HEAD,
    /// The OPTIONS method describes the communication options for the target resource.
    OPTIONS,
    /// The CONNECT method establishes a tunnel to the server identified by the target resource.
    CONNECT,
    /// The TRACE method performs a message loop-back test along the path to the target resource.
    TRACE,
    /// A method that is not one of the standard HTTP methods above.
    Unknown(String),
}

/// The mathematical value of an [`HttpMethod`]: the same variants, with the
/// name of an unknown method as a character sequence.
pub enum MethodName {
    GET,
    POST,
    PATCH,
    PUT,
    DELETE,
    HEAD,
    OPTIONS,
    CONNECT,
    TRACE,
    Unknown(Seq<char>),
}

impl View for HttpMethod {
    type V = MethodName;

    open spec fn view(&self) -> MethodName {
        match self {
            HttpMethod::GET => MethodName::GET,
            HttpMethod::POST => MethodName::POST,
            HttpMethod::PATCH => MethodName::PATCH,
            HttpMethod::PUT => MethodName::PUT,
            HttpMethod::DELETE => MethodName::DELETE,
            HttpMethod::HEAD => MethodName::HEAD,
            HttpMethod::OPTIONS => MethodName::OPTIONS,
            HttpMethod::CONNECT => MethodName::CONNECT,
            HttpMethod::TRACE => MethodName::TRACE,
            HttpMethod::Unknown(s) => MethodName::Unknown(s@),
        }
    }
}

/// The method that an (already case-mapped) method name denotes: one of the
/// nine standard names, or an unknown method carrying the name itself.
pub open spec fn method_of(name: Seq<char>) -> MethodName {
    if name == "GET"@ {
        MethodName::GET
    } else if name == "POST"@ {
        MethodName::POST
    } else if name == "PATCH"@ {
        MethodName::PATCH
    } else if name == "PUT"@ {
        MethodName::PUT
    } else if name == "DELETE"@ {
        MethodName::DELETE
    } else if name == "HEAD"@ {
        MethodName::HEAD
    } else if name == "OPTIONS"@ {
        MethodName::OPTIONS
    } else if name == "CONNECT"@ {
        MethodName::CONNECT
    } else if name == "TRACE"@ {
        MethodName::TRACE
    } else {
        MethodName::Unknown(name)
    }
}

fn named(name: &str, literal: &str) -> (r: bool)
    ensures
        r == (name@ == literal@),
{
    let a = chars_of(name);
    let b = chars_of(literal);
    chars_eq(a.as_slice(), b.as_slice())
}

impl HttpMethod {
    /// The method denoted by `name`, compared exactly: the standard methods by
    /// their upper-case names, anything else as [`HttpMethod::Unknown`] holding `name`.
    pub fn from_exact_name(name: String) -> (r: HttpMethod)
        ensures
            r@ == method_of(name@),
    {
        if named(name.as_str(), "GET") {
            HttpMethod::GET
        } else if named(name.as_str(), "POST") {
            HttpMethod::POST
        } else if named(name.as_str(), "PATCH") {
            HttpMethod::PATCH
        } else if named(name.as_str(), "PUT") {
            HttpMethod::PUT
        } else if named(name.as_str(), "DELETE") {
            HttpMethod::DELETE
        } else if named(name.as_str(), "HEAD") {
            HttpMethod::HEAD
        } else if named(name.as_str(), "OPTIONS") {
            HttpMethod::OPTIONS
        } else if named(name.as_str(), "CONNECT") {
            HttpMethod::CONNECT
        } else if named(name.as_str(), "TRACE") {
            HttpMethod::TRACE
        } else {
            HttpMethod::Unknown(name)
        }
    }

    /// Converts any method name into an [`HttpMethod`]: the name is trimmed and
    /// upper-cased first, so `" get "` is [`HttpMethod::GET`]; an unrecognised
    /// name becomes [`HttpMethod::Unknown`] holding the trimmed, upper-cased text.
    pub fn from(value: &str) -> (r: HttpMethod)
        ensures
            r@ == method_of(spec_uppercase(spec_trim(value@))),
    {
        let trimmed = trim(value);
        let upper = to_uppercase(trimmed);
        HttpMethod::from_exact_name(upper)
    }

    /// Equality of two methods (same variant, and the same name for unknown ones).
    pub fn same(&self, other: &HttpMethod) -> (r: bool)
        ensures
            r == (self@ == other@),
    {
        match (self, other) {
            (HttpMethod::GET, HttpMethod::GET) => true,
            (HttpMethod::POST, HttpMethod::POST) => true,
            (HttpMethod::PATCH, HttpMethod::PATCH) => true,
            (HttpMethod::PUT, HttpMethod::PUT) => true,
            (HttpMethod::DELETE, HttpMethod::DELETE) => true,
            (HttpMethod::HEAD, HttpMethod::HEAD) => true,
            (HttpMethod::OPTIONS, HttpMethod::OPTIONS) => true,
            (HttpMethod::CONNECT, HttpMethod::CONNECT) => true,
            (HttpMethod::TRACE, HttpMethod::TRACE) => true,
            (HttpMethod::Unknown(a), HttpMethod::Unknown(b)) => {
                let r = a.eq(b);
                r
            },
            _ => false,
        }
    }
}

impl Clone for HttpMethod {
    fn clone(&self) -> (r: Self)
        ensures
            r == *self,
    {
        match self {
            HttpMethod::GET => HttpMethod::GET,
            HttpMethod::POST => HttpMethod::POST,
            HttpMethod::PATCH => HttpMethod::PATCH,
            HttpMethod::PUT => HttpMethod::PUT,
            HttpMethod::DELETE => HttpMethod::DELETE,
            HttpMethod::HEAD => HttpMethod::HEAD,
            HttpMethod::OPTIONS => HttpMethod::OPTIONS,
            HttpMethod::CONNECT => HttpMethod::CONNECT,
            HttpMethod::TRACE => HttpMethod::TRACE,
            HttpMethod::Unknown(s) => HttpMethod::Unknown(s.clone()),
        }
    }
}

impl PartialEq for HttpMethod {
    fn eq(&self, other: &Self) -> (r: bool) {
        self.same(other)
    }
}

impl Eq for HttpMethod {
}

impl vstd::std_specs::cmp::PartialEqSpecImpl for HttpMethod {
    open spec fn obeys_eq_spec() -> bool {
        true
    }

    open spec fn eq_spec(&self, other: &Self) -> bool {
        self@ == other@
    }
}

} // verus!
