//! The URL of a documented request.

use vstd::prelude::*;

use crate::text::{
    chars_of,
    copy_string,
    spec_trim,
    split_by,
    split_chars,
    strip_char,
    string_of,
    trim,
    without_char,
};

verus! {

/// The character views of a sequence of strings.
pub open spec fn strings(v: Seq<String>) -> Seq<Seq<char>> {
    v.map_values(|s: String| s@)
}

/// The path segments of a route: the `/`-separated pieces that are not blank
/// once trimmed, each trimmed.
pub open spec fn url_path(parts: Seq<Seq<char>>) -> Seq<Seq<char>>
    decreases parts.len(),
{
    if parts.len() == 0 {
        seq![]
    } else {
        let r = url_path(parts.drop_last());
        let t = spec_trim(parts.last());
        if t.len() == 0 {
            r
        } else {
            r.push(spec_trim(without_char(t, '/')))
        }
    }
}

/// The URL of a request: its raw text, its host and its path segments.
#[derive(Debug, Clone)]
pub struct Url {
    raw: String,
    host: Vec<String>,
    path: Vec<String>,
}

impl Url {
    /// The raw text of the URL.
    pub closed spec fn raw_text(self) -> Seq<char> {
        self.raw@
    }

    /// The host pieces.
    pub closed spec fn hosts(self) -> Seq<Seq<char>> {
        strings(self.host@)
    }

    /// The path segments.
    pub closed spec fn segments(self) -> Seq<Seq<char>> {
        strings(self.path@)
    }

    /// The URL of `route_path` on `base`: the raw text joins them with one
    /// `/` unless the route starts with one, the host is `base`, and the path
    /// holds the route's segments.
    pub fn new(base: String, route_path: String) -> (r: Self)
        ensures
            r.raw_text() == base@ + (if route_path@.len() > 0 && route_path@[0] == '/' {
                Seq::<char>::empty()
            } else {
                "/"@
            }) + route_path@,
            r.hosts() == seq![base@],
            r.segments() == url_path(split_by(route_path@, '/')),
    {
        let rc = chars_of(route_path.as_str());
        let mut raw = chars_of(base.as_str());
        if !(rc.len() > 0 && rc[0] == '/') {
            raw.push('/');
            proof {
                reveal_strlit("/");
            }
        } else {
            assert(raw@ + Seq::<char>::empty() == raw@);
        }
        let mut rest = chars_of(route_path.as_str());
        raw.append(&mut rest);
        let raw = string_of(raw.as_slice());
        let parts = split_chars(rc.as_slice(), '/');
        let mut path: Vec<String> = Vec::new();
        let mut i: usize = 0;
        while i < parts.len()
            invariant
                i <= parts@.len(),
                crate::text::views(parts@) == split_by(route_path@, '/'),
                strings(path@) == url_path(crate::text::views(parts@).take(i as int)),
            decreases parts@.len() - i,
        {
            assert(crate::text::views(parts@).take(i + 1).drop_last() == crate::text::views(parts@).take(
                i as int,
            ));
            assert(crate::text::views(parts@)[i as int] == parts@[i as int]@);
            let piece = string_of(parts[i].as_slice());
            let t = trim(piece.as_str());
            let tc = chars_of(t);
            if tc.len() > 0 {
                let cleaned = strip_char(tc.as_slice(), '/');
                let cleaned = string_of(cleaned.as_slice());
                let seg = copy_string(trim(cleaned.as_str()));
                let ghost before = strings(path@);
                path.push(seg);
                assert(strings(path@) == before.push(seg@));
            }
            i = i + 1;
        }
        assert(crate::text::views(parts@).take(parts@.len() as int) == crate::text::views(parts@));
        let mut host: Vec<String> = Vec::new();
        host.push(base);
        assert(strings(host@) == seq![host@[0]@]);
        Url { raw, host, path }
    }

    /// A URL made of the given raw text, host pieces and path segments.
    pub fn from_parts(raw: String, host: Vec<String>, path: Vec<String>) -> (r: Self)
        ensures
            r.raw_text() == raw@,
            r.hosts() == strings(host@),
            r.segments() == strings(path@),
    {
        Url { raw, host, path }
    }

    /// The empty URL: no raw text, no host, no path.
    pub fn empty() -> (r: Self)
        ensures
            r.raw_text().len() == 0,
            r.hosts().len() == 0,
            r.segments().len() == 0,
    {
        Url { raw: String::new(), host: Vec::new(), path: Vec::new() }
    }

    /// The raw text of the URL.
    pub fn raw(&self) -> (r: &String)
        ensures
            r@ == self.raw_text(),
    {
        &self.raw
    }

    /// The host pieces.
    pub fn host(&self) -> (r: &Vec<String>)
        ensures
            strings(r@) == self.hosts(),
    {
        &self.host
    }

    /// The path segments.
    pub fn path(&self) -> (r: &Vec<String>)
        ensures
            strings(r@) == self.segments(),
    {
        &self.path
    }

    /// Whether this is the empty URL.
    pub fn is_empty(&self) -> (r: bool)
        ensures
            r == (self.raw_text().len() == 0 && self.hosts().len() == 0 && self.segments().len() == 0),
    {
        let rc = chars_of(self.raw.as_str());
        rc.len() == 0 && self.host.len() == 0 && self.path.len() == 0
    }
}

impl Default for Url {
    fn default() -> (r: Self)
        ensures
            r.raw_text().len() == 0,
            r.hosts().len() == 0,
            r.segments().len() == 0,
    {
        Url::empty()
    }
}

} // verus!
