//! # HTTP Request Meta
//!
//! The head and body of an incoming request: route, method, headers and body.

use vstd::prelude::*;

use crate::str_map::{Entries, StrMap};
use crate::text::{chars_of, find_last, last_at, last_index_of, rsplit_once};
use vstd::string::StrSliceExecFns;
use crate::web::HttpMethod;

verus! {

/// Case-insensitive map from header name to header value produced while
/// parsing the request. Keys and values are stored lower-cased.
pub type HeaderMap = StrMap;

/// Immutable data about an incoming request from a client.
pub struct HttpRequestMeta {
    route: String,
    method: HttpMethod,
    headers: HeaderMap,
    body: Vec<u8>,
}

impl HttpRequestMeta {
    /// The full route, parameters included.
    pub closed spec fn route_text(self) -> Seq<char> {
        self.route@
    }

    /// The method of the request.
    pub closed spec fn method_of(self) -> HttpMethod {
        self.method
    }

    /// The headers of the request.
    pub closed spec fn header_list(self) -> Entries {
        self.headers@
    }

    /// The body of the request.
    pub closed spec fn body_bytes(self) -> Seq<u8> {
        self.body@
    }

    /// The route without its parameters: the part before the last `?`, or
    /// the whole route when it holds none.
    pub open spec fn clean(self) -> Seq<char> {
        match rsplit_once(self.route_text(), '?') {
            Some((a, _)) => a,
            None => self.route_text(),
        }
    }

    /// The parameters of the route: the part after the last `?`, if any.
    pub open spec fn params(self) -> Option<Seq<char>> {
        match rsplit_once(self.route_text(), '?') {
            Some((_, b)) => Some(b),
            None => None,
        }
    }

    /// Creates a new instance of an HTTP request head.
    pub fn new(route: String, method: HttpMethod, headers: HeaderMap, body: Vec<u8>) -> (r: Self)
        ensures
            r.route_text() == route@,
            r.method_of() == method,
            r.header_list() == headers@,
            r.body_bytes() == body@,
    {
        HttpRequestMeta { route, method, headers, body }
    }

    // splits the route into two parts. The cleaned route and parameters
    fn split_route(&self) -> (r: (&str, Option<&str>))
        ensures
            r.0@ == self.clean(),
            match self.params() {
                Some(p) => r.1 matches Some(x) && x@ == p,
                None => r.1 is None,
            },
    {
        let full = self.route.as_str();
        let cs = chars_of(full);
        let n = full.unicode_len();
        match find_last(cs.as_slice(), '?') {
            Some(i) => {
                assert(crate::text::last_at(cs@, '?', i as int));
                let a = full.substring_char(0, i);
                let b = full.substring_char(i + 1, n);
                assert(a@ == full@.take(i as int));
                assert(b@ == full@.skip(i + 1));
                (a, Some(b))
            },
            None => (full, None),
        }
    }

    /// # Clean Route
    ///
    /// Returns the route without its ending parameters:
    /// `/api/user?name=Shawn` -> `/api/user`
    pub fn clean_route(&self) -> (r: &str)
        ensures
            r@ == self.clean(),
    {
        self.split_route().0
    }

    /// The parameters of the route: `/api/user?name=Shawn` -> `name=Shawn`.
    pub fn route_params(&self) -> (r: Option<&str>)
        ensures
            match self.params() {
                Some(p) => r matches Some(x) && x@ == p,
                None => r is None,
            },
    {
        self.split_route().1
    }

    /// The full route.
    pub fn full_route(&self) -> (r: &str)
        ensures
            r@ == self.route_text(),
    {
        self.route.as_str()
    }

    /// The method used in the request.
    pub fn method(&self) -> (r: &HttpMethod)
        ensures
            *r == self.method_of(),
    {
        &self.method
    }

    /// A copy of the body.
    pub fn body(&self) -> (r: Vec<u8>)
        ensures
            r@ == self.body_bytes(),
    {
        vstd::slice::slice_to_vec(self.body.as_slice())
    }

    /// A reference to the body.
    pub fn body_ref(&self) -> (r: &Vec<u8>)
        ensures
            r@ == self.body_bytes(),
    {
        &self.body
    }

    /// The headers of the request.
    pub fn headers(&self) -> (r: &HeaderMap)
        ensures
            r@ == self.header_list(),
    {
        &self.headers
    }
}

/// When `s[j]` is `c`, `c` has a last position in `s`.
proof fn lemma_has_last(s: Seq<char>, c: char, j: int)
    requires
        0 <= j < s.len(),
        s[j] == c,
    ensures
        last_index_of(s, c) >= 0,
    decreases s.len() - j,
{
    if forall|k: int| j < k < s.len() ==> #[trigger] s[k] != c {
        assert(last_at(s, c, j));
    } else {
        let k = choose|k: int| j < k < s.len() && #[trigger] s[k] == c;
        lemma_has_last(s, c, k);
    }
}

/// The clean route and the parameters make up the whole route again: with
/// parameters, the clean route, `?` and the parameters, which hold no `?`;
/// without, the clean route is the route, which holds no `?`.
pub proof fn lemma_route_split_rejoins(meta: HttpRequestMeta)
    ensures
        match meta.params() {
            Some(p) => meta.clean() + seq!['?'] + p == meta.route_text() && !p.contains('?'),
            None => meta.clean() == meta.route_text() && !meta.route_text().contains('?'),
        },
{
    let s = meta.route_text();
    let i = last_index_of(s, '?');
    if i >= 0 {
        assert(last_at(s, '?', i));
        assert(s.take(i) + seq!['?'] + s.skip(i + 1) =~= s);
        let p = s.skip(i + 1);
        if p.contains('?') {
            let k = choose|k: int| 0 <= k < p.len() && p[k] == '?';
            assert(s[i + 1 + k] == '?');
        }
    } else {
        if s.contains('?') {
            let k = choose|k: int| 0 <= k < s.len() && s[k] == '?';
            lemma_has_last(s, '?', k);
        }
    }
}

} // verus!
