//! # Response
//!
//! The [`Response`] builder and its wire serialisation. A [`Response`] is
//! constructed per request, configured by the registered handler and any
//! middleware, and finally serialised into the bytes that are written back
//! over the connection.

pub mod http_code;

use linked_hash_map::LinkedHashMap;
use vstd::prelude::*;
use vstd::utf8::encode_utf8;

use crate::str_map::{Entries, entry_view, first_key, lookup};
use crate::text::{chars_of, copy_string, decimal, decimal_string, spec_lowercase, to_lowercase};
use crate::web::http_code::{HttpCode, spec_code, spec_status};
use crate::web::http_request::Parsers;

verus! {

/// String type used for HTTP header names.
pub type HeaderKey = String;

/// String type used for HTTP header values.
pub type HeaderValue = String;

#[verifier::external_type_specification]
#[verifier::external_body]
#[verifier::reject_recursive_types(K)]
#[verifier::reject_recursive_types(V)]
#[verifier::reject_recursive_types(S)]
pub struct ExLinkedHashMap<K, V, S>(LinkedHashMap<K, V, S>);

/// The entries of a header map, in iteration order: each key once, the key
/// inserted or re-inserted most recently last.
pub uninterp spec fn header_entries(m: LinkedHashMap<String, String>) -> Entries;

/// The test that an entry's key is not `k`.
pub open spec fn key_is_not(k: Seq<char>) -> spec_fn((Seq<char>, Seq<char>)) -> bool {
    |e: (Seq<char>, Seq<char>)| e.0 != k
}

/// The entries without the one whose key is `k`.
pub open spec fn without_key(es: Entries, k: Seq<char>) -> Entries {
    es.filter(key_is_not(k))
}

/// The entries after `LinkedHashMap::insert(k, v)`: any entry for `k` leaves
/// its place and `(k, v)` becomes the last entry.
pub open spec fn moved_to_back(es: Entries, k: Seq<char>, v: Seq<char>) -> Entries {
    without_key(es, k).push((k, v))
}

/// `LinkedHashMap::new`: an empty map.
#[verifier::external_body]
fn header_map_new() -> (r: LinkedHashMap<String, String>)
    ensures
        header_entries(r) == Seq::<(Seq<char>, Seq<char>)>::empty(),
{
    LinkedHashMap::new()
}

/// `LinkedHashMap::insert`: stores `v` under `k`. The source replaces the value
/// of an existing key and moves its entry to the back of the iteration order,
/// or appends a new entry; it returns the value that was replaced.
#[verifier::external_body]
fn header_map_insert(m: &mut LinkedHashMap<String, String>, k: String, v: String) -> (r: Option<String>)
    ensures
        header_entries(*final(m)) == moved_to_back(header_entries(*old(m)), k@, v@),
        match r {
            Some(x) => lookup(header_entries(*old(m)), k@) == Some(x@),
            None => lookup(header_entries(*old(m)), k@) is None,
        },
{
    m.insert(k, v)
}

/// `LinkedHashMap::get`: the value stored under `k`.
#[verifier::external_body]
fn header_map_get<'a>(m: &'a LinkedHashMap<String, String>, k: &String) -> (r: Option<&'a String>)
    ensures
        match r {
            Some(x) => lookup(header_entries(*m), k@) == Some(x@),
            None => lookup(header_entries(*m), k@) is None,
        },
{
    m.get(k)
}

/// `LinkedHashMap::iter`, each entry copied out, in iteration order.
#[verifier::external_body]
fn header_map_pairs(m: &LinkedHashMap<String, String>) -> (r: Vec<(String, String)>)
    ensures
        r@.map_values(|e: (String, String)| entry_view(e)) == header_entries(*m),
{
    m.iter().map(|(k, v)| (k.clone(), v.clone())).collect()
}

/// Removing the entries of one key leaves the value of every other key as
/// it was.
pub proof fn lemma_without_key_lookup(es: Entries, k: Seq<char>, o: Seq<char>)
    requires
        o != k,
    ensures
        lookup(without_key(es, k), o) == lookup(es, o),
    decreases es.len(),
{
    let pred = key_is_not(k);
    if es.len() == 0 {
        assert(without_key(es, k) =~= es) by {
            reveal(Seq::filter);
        }
    } else {
        let dl = es.drop_last();
        lemma_without_key_lookup(dl, k, o);
        assert(es == dl.push(es.last()));
        assert(without_key(es, k) == (if pred(es.last()) {
            without_key(dl, k).push(es.last())
        } else {
            without_key(dl, k)
        })) by {
            reveal(Seq::filter);
        }
        crate::str_map::lemma_lookup_push(dl, es.last(), o);
        if pred(es.last()) {
            crate::str_map::lemma_lookup_push(without_key(dl, k), es.last(), o);
        }
    }
}

/// A header read back after it was set has the value it was set to, and
/// setting one header leaves the value of every other header as it was.
pub proof fn lemma_set_header_then_get(es: Entries, k: Seq<char>, v: Seq<char>, other: Seq<char>)
    ensures
        lookup(moved_to_back(es, k, v), k) == Some(v),
        other != k ==> lookup(moved_to_back(es, k, v), other) == lookup(es, other),
{
    let w = without_key(es, k);
    assert forall|j: int| 0 <= j < w.len() implies #[trigger] w[j].0 != k by {
        es.lemma_filter_pred(key_is_not(k), j);
    }
    assert(lookup(w, k) is None) by {
        assert forall|p: int| !first_key(w, k, p) by {
            if first_key(w, k, p) {
                assert(w[p].0 != k);
            }
        }
    }
    crate::str_map::lemma_lookup_push(w, (k, v), k);
    if other != k {
        crate::str_map::lemma_lookup_push(w, (k, v), other);
        lemma_without_key_lookup(es, k, other);
    }
}

/// The header block: one `name: value\r\n` line per entry, in order.
pub open spec fn header_lines(es: Entries) -> Seq<char>
    decreases es.len(),
{
    if es.len() == 0 {
        seq![]
    } else {
        header_lines(es.drop_last()) + es.last().0 + ": "@ + es.last().1 + "\r\n"@
    }
}

/// The status line and header block of an HTTP/1.1 response, up to and
/// including the empty line that ends the head.
pub open spec fn http_v1_head(code: HttpCode, es: Entries) -> Seq<char> {
    "HTTP/1.1 "@ + decimal(spec_code(code) as nat) + " "@ + spec_status(code) + "\r\n"@
        + header_lines(es) + "\r\n"@
}

/// # Response
///
/// Builder for the outgoing HTTP response. Holds the status code, an
/// ordered header map, an optional body, and the parser that decides how the
/// response is framed on the wire.
#[derive(Debug)]
pub struct Response {
    headers: LinkedHashMap<HeaderKey, HeaderValue>,
    status: HttpCode,
    body: Option<Vec<u8>>,
    parser: Parsers,
}

impl Response {
    /// The headers, in iteration order.
    pub closed spec fn header_list(self) -> Entries {
        header_entries(self.headers)
    }

    /// The status code.
    pub closed spec fn code(self) -> HttpCode {
        self.status
    }

    /// The body, if one is set.
    pub closed spec fn body_bytes(self) -> Option<Seq<u8>> {
        match self.body {
            Some(b) => Some(b@),
            None => None,
        }
    }

    /// The parser that frames the response.
    pub closed spec fn framing(self) -> Parsers {
        self.parser
    }

    /// The bytes a response is written out as: for HTTP/1.1, the UTF-8 of
    /// its head followed by its body.
    pub open spec fn wire(self) -> Seq<u8> {
        match self.framing() {
            Parsers::HttpV1 => encode_utf8(http_v1_head(self.code(), self.header_list())) + match self.body_bytes() {
                Some(b) => b,
                None => seq![],
            },
        }
    }

    /// Create a new response object with the selected parser (determines how the data is encoded):
    /// status `200 OK`, no header, no body.
    pub fn new(parser: &Parsers) -> (r: Response)
        ensures
            r.header_list() == Seq::<(Seq<char>, Seq<char>)>::empty(),
            r.code() == HttpCode::OK,
            r.body_bytes() is None,
            r.framing() == *parser,
    {
        Response { headers: header_map_new(), status: HttpCode::OK, body: None, parser: *parser }
    }

    /// Set the status of the response.
    pub fn status(&mut self, code: HttpCode) -> (r: &mut Response)
        ensures
            r.code() == code,
            r.header_list() == old(self).header_list(),
            r.body_bytes() == old(self).body_bytes(),
            r.framing() == old(self).framing(),
            *final(self) == *final(r),
    {
        self.status = code;
        self
    }

    /// Set a header's value. A header that is already present gets the new
    /// value and moves to the end of the header order.
    pub fn set_header(&mut self, key: &str, val: &str) -> (r: &mut Response)
        ensures
            r.header_list() == moved_to_back(old(self).header_list(), key@, val@),
            r.code() == old(self).code(),
            r.body_bytes() == old(self).body_bytes(),
            r.framing() == old(self).framing(),
            *final(self) == *final(r),
    {
        header_map_insert(&mut self.headers, copy_string(key), copy_string(val));
        self
    }

    /// Retrieve a header via the key.
    pub fn get_header(&self, key: &HeaderKey) -> (r: Option<&HeaderValue>)
        ensures
            match r {
                Some(v) => lookup(self.header_list(), key@) == Some(v@),
                None => lookup(self.header_list(), key@) is None,
            },
    {
        header_map_get(&self.headers, key)
    }

    /// The header map.
    pub fn headers(&self) -> (r: &LinkedHashMap<HeaderKey, HeaderValue>)
        ensures
            header_entries(*r) == self.header_list(),
    {
        &self.headers
    }

    /// Sets the body of the response, and the `Content-Length` header to its
    /// length in decimal.
    pub fn set_body(&mut self, body: Vec<u8>) -> (r: &mut Response)
        ensures
            r.body_bytes() == Some(body@),
            r.header_list() == moved_to_back(
                old(self).header_list(),
                "Content-Length"@,
                decimal(body@.len()),
            ),
            r.code() == old(self).code(),
            r.framing() == old(self).framing(),
            *final(self) == *final(r),
    {
        let content_length = decimal_string(body.len() as u64);
        self.set_header("Content-Length", content_length.as_str());
        self.body = Some(body);
        self
    }

    /// Sets the body to none.
    pub fn no_body(&mut self) -> (r: &mut Response)
        ensures
            r.body_bytes() is None,
            r.header_list() == old(self).header_list(),
            r.code() == old(self).code(),
            r.framing() == old(self).framing(),
            *final(self) == *final(r),
    {
        self.body = None;
        self
    }

    /// Changes the header `Content-Type` to `text/plain` and sets the body to
    /// the UTF-8 encoding of `text`.
    pub fn text(&mut self, text: &str) -> (r: &mut Response)
        ensures
            r.body_bytes() == Some(encode_utf8(text@)),
            r.header_list() == moved_to_back(
                moved_to_back(old(self).header_list(), "Content-Type"@, "text/plain"@),
                "Content-Length"@,
                decimal(encode_utf8(text@).len()),
            ),
            r.code() == old(self).code(),
            r.framing() == old(self).framing(),
            *final(self) == *final(r),
    {
        self.set_header("Content-Type", "text/plain");
        let bytes = vstd::slice::slice_to_vec(text.as_bytes());
        self.set_body(bytes);
        self
    }

    /// Sets the body to the data of the file at `file_path`, with the
    /// `Content-Type` header that the path's extension gives, then the
    /// `Content-Length` of the data.
    pub fn file_body(&mut self, file_path: &str, data: Vec<u8>) -> (r: &mut Response)
        ensures
            r.body_bytes() == Some(data@),
            r.header_list() == moved_to_back(
                moved_to_back(old(self).header_list(), "Content-Type"@, file_type_header(file_path@)),
                "Content-Length"@,
                decimal(data@.len()),
            ),
            r.code() == old(self).code(),
            r.framing() == old(self).framing(),
            *final(self) == *final(r),
    {
        let content_type = get_file_type_header(file_path);
        self.set_header("Content-Type", content_type.as_str());
        self.set_body(data);
        self
    }

    /// Serialises the response into the bytes written back to the client.
    pub fn into_bytes(self) -> (r: Vec<u8>)
        ensures
            r@ == self.wire(),
    {
        match self.parser {
            Parsers::HttpV1 => {
                let mut head: Vec<char> = chars_of("HTTP/1.1 ");
                let mut code_digits = chars_of(decimal_string(self.status.as_status_code() as u64).as_str());
                head.append(&mut code_digits);
                let mut space = chars_of(" ");
                head.append(&mut space);
                let mut reason = chars_of(self.status.as_status().as_str());
                head.append(&mut reason);
                let mut crlf = chars_of("\r\n");
                head.append(&mut crlf);
                let ghost start = head@;
                let pairs = header_map_pairs(&self.headers);
                let ghost es = pairs@.map_values(|e: (String, String)| entry_view(e));
                let mut i: usize = 0;
                while i < pairs.len()
                    invariant
                        i <= pairs@.len(),
                        es == pairs@.map_values(|e: (String, String)| entry_view(e)),
                        head@ == start + header_lines(es.take(i as int)),
                    decreases pairs@.len() - i,
                {
                    assert(es.take(i + 1).drop_last() == es.take(i as int));
                    assert(es[i as int] == entry_view(pairs@[i as int]));
                    let mut k = chars_of(pairs[i].0.as_str());
                    head.append(&mut k);
                    let mut sep = chars_of(": ");
                    head.append(&mut sep);
                    let mut v = chars_of(pairs[i].1.as_str());
                    head.append(&mut v);
                    let mut end = chars_of("\r\n");
                    head.append(&mut end);
                    i = i + 1;
                }
                assert(es.take(pairs@.len() as int) == es);
                let mut last = chars_of("\r\n");
                head.append(&mut last);
                let text = crate::text::string_of(head.as_slice());
                let mut bytes = vstd::slice::slice_to_vec(text.as_str().as_bytes());
                match self.body {
                    Some(body) => {
                        let mut body = body;
                        bytes.append(&mut body);
                    },
                    None => {},
                }
                bytes
            },
        }
    }
}

/// The path components that name something: the non-empty pieces between
/// `/` separators, without the `.` pieces.
pub open spec fn path_components(parts: Seq<Seq<char>>) -> Seq<Seq<char>>
    decreases parts.len(),
{
    if parts.len() == 0 {
        seq![]
    } else {
        let r = path_components(parts.drop_last());
        let c = parts.last();
        if c.len() > 0 && c != "."@ {
            r.push(c)
        } else {
            r
        }
    }
}

/// The file extension of a path, as `Path::extension` gives it: the part of
/// the last path component after its last `.`; none when the component has
/// no `.`, when its only `.` is its first character, or when it is `..`.
pub open spec fn path_extension(p: Seq<char>) -> Option<Seq<char>> {
    let comps = path_components(crate::text::split_by(p, '/'));
    if comps.len() == 0 {
        None
    } else {
        let name = comps.last();
        if name == ".."@ {
            None
        } else {
            let dots = crate::text::split_by(name, '.');
            if dots.len() < 2 {
                None
            } else if dots.len() == 2 && dots[0].len() == 0 {
                None
            } else {
                Some(dots.last())
            }
        }
    }
}

/// The media type for a lower-cased file extension.
pub open spec fn media_type(ext: Seq<char>) -> Seq<char> {
    
if ext == "html"@ {
        "text/html"@
    } else if ext == "htm"@ {
        "text/html"@
    } else if ext == "css"@ {
        "text/css"@
    } else if ext == "js"@ {
        "application/javascript"@
    } else if ext == "json"@ {
        "application/json"@
    } else if ext == "txt"@ {
        "text/plain"@
    } else if ext == "csv"@ {
        "text/csv"@
    } else if ext == "xml"@ {
        "application/xml"@
    } else if ext == "jpg"@ {
        "image/jpeg"@
    } else if ext == "jpeg"@ {
        "image/jpeg"@
    } else if ext == "png"@ {
        "image/png"@
    } else if ext == "gif"@ {
        "image/gif"@
    } else if ext == "bmp"@ {
        "image/bmp"@
    } else if ext == "webp"@ {
        "image/webp"@
    } else if ext == "svg"@ {
        "image/svg+xml"@
    } else if ext == "ico"@ {
        "image/x-icon"@
    } else if ext == "mp3"@ {
        "audio/mpeg"@
    } else if ext == "wav"@ {
        "audio/wav"@
    } else if ext == "ogg"@ {
        "audio/ogg"@
    } else if ext == "mp4"@ {
        "video/mp4"@
    } else if ext == "webm"@ {
        "video/webm"@
    } else if ext == "woff"@ {
        "font/woff"@
    } else if ext == "woff2"@ {
        "font/woff2"@
    } else if ext == "ttf"@ {
        "font/ttf"@
    } else if ext == "otf"@ {
        "font/otf"@
    } else if ext == "pdf"@ {
        "application/pdf"@
    } else if ext == "zip"@ {
        "application/zip"@
    } else if ext == "tar"@ {
        "application/x-tar"@
    } else if ext == "gz"@ {
        "application/gzip"@
    } else {
        "application/octet-stream"@
    }
}

/// The `Content-Type` for a file path: the media type of its lower-cased
/// extension, `application/octet-stream` when it has none or an unknown one.
pub open spec fn file_type_header(p: Seq<char>) -> Seq<char> {
    match path_extension(p) {
        Some(e) => media_type(spec_lowercase(e)),
        None => "application/octet-stream"@,
    }
}

fn media_type_of(ext: &[char]) -> (r: String)
    ensures
        r@ == media_type(ext@),
{
    
if crate::text::chars_eq(ext, chars_of("html").as_slice()) {
        copy_string("text/html")
    } else if crate::text::chars_eq(ext, chars_of("htm").as_slice()) {
        copy_string("text/html")
    } else if crate::text::chars_eq(ext, chars_of("css").as_slice()) {
        copy_string("text/css")
    } else if crate::text::chars_eq(ext, chars_of("js").as_slice()) {
        copy_string("application/javascript")
    } else if crate::text::chars_eq(ext, chars_of("json").as_slice()) {
        copy_string("application/json")
    } else if crate::text::chars_eq(ext, chars_of("txt").as_slice()) {
        copy_string("text/plain")
    } else if crate::text::chars_eq(ext, chars_of("csv").as_slice()) {
        copy_string("text/csv")
    } else if crate::text::chars_eq(ext, chars_of("xml").as_slice()) {
        copy_string("application/xml")
    } else if crate::text::chars_eq(ext, chars_of("jpg").as_slice()) {
        copy_string("image/jpeg")
    } else if crate::text::chars_eq(ext, chars_of("jpeg").as_slice()) {
        copy_string("image/jpeg")
    } else if crate::text::chars_eq(ext, chars_of("png").as_slice()) {
        copy_string("image/png")
    } else if crate::text::chars_eq(ext, chars_of("gif").as_slice()) {
        copy_string("image/gif")
    } else if crate::text::chars_eq(ext, chars_of("bmp").as_slice()) {
        copy_string("image/bmp")
    } else if crate::text::chars_eq(ext, chars_of("webp").as_slice()) {
        copy_string("image/webp")
    } else if crate::text::chars_eq(ext, chars_of("svg").as_slice()) {
        copy_string("image/svg+xml")
    } else if crate::text::chars_eq(ext, chars_of("ico").as_slice()) {
        copy_string("image/x-icon")
    } else if crate::text::chars_eq(ext, chars_of("mp3").as_slice()) {
        copy_string("audio/mpeg")
    } else if crate::text::chars_eq(ext, chars_of("wav").as_slice()) {
        copy_string("audio/wav")
    } else if crate::text::chars_eq(ext, chars_of("ogg").as_slice()) {
        copy_string("audio/ogg")
    } else if crate::text::chars_eq(ext, chars_of("mp4").as_slice()) {
        copy_string("video/mp4")
    } else if crate::text::chars_eq(ext, chars_of("webm").as_slice()) {
        copy_string("video/webm")
    } else if crate::text::chars_eq(ext, chars_of("woff").as_slice()) {
        copy_string("font/woff")
    } else if crate::text::chars_eq(ext, chars_of("woff2").as_slice()) {
        copy_string("font/woff2")
    } else if crate::text::chars_eq(ext, chars_of("ttf").as_slice()) {
        copy_string("font/ttf")
    } else if crate::text::chars_eq(ext, chars_of("otf").as_slice()) {
        copy_string("font/otf")
    } else if crate::text::chars_eq(ext, chars_of("pdf").as_slice()) {
        copy_string("application/pdf")
    } else if crate::text::chars_eq(ext, chars_of("zip").as_slice()) {
        copy_string("application/zip")
    } else if crate::text::chars_eq(ext, chars_of("tar").as_slice()) {
        copy_string("application/x-tar")
    } else if crate::text::chars_eq(ext, chars_of("gz").as_slice()) {
        copy_string("application/gzip")
    } else {
        copy_string("application/octet-stream")
    }
}

fn components(parts: &Vec<Vec<char>>) -> (r: Vec<Vec<char>>)
    ensures
        crate::text::views(r@) == path_components(crate::text::views(parts@)),
{
    let mut out: Vec<Vec<char>> = Vec::new();
    let dot = chars_of(".");
    let mut i: usize = 0;
    while i < parts.len()
        invariant
            i <= parts@.len(),
            dot@ == "."@,
            crate::text::views(out@) == path_components(crate::text::views(parts@).take(i as int)),
        decreases parts@.len() - i,
    {
        assert(crate::text::views(parts@).take(i + 1).drop_last() == crate::text::views(parts@).take(
            i as int,
        ));
        if parts[i].len() > 0 && !crate::text::chars_eq(parts[i].as_slice(), dot.as_slice()) {
            let c = parts[i].clone();
            out.push(c);
            assert(crate::text::views(out@) == crate::text::views(out@).drop_last().push(c@));
        }
        i = i + 1;
    }
    assert(crate::text::views(parts@).take(parts@.len() as int) == crate::text::views(parts@));
    out
}

/// The extension of a file path (`Path::extension`).
pub fn file_extension(file_path: &str) -> (r: Option<String>)
    ensures
        match path_extension(file_path@) {
            Some(e) => r matches Some(x) && x@ == e,
            None => r is None,
        },
{
    let cs = chars_of(file_path);
    let parts = crate::text::split_chars(cs.as_slice(), '/');
    let comps = components(&parts);
    if comps.len() == 0 {
        return None;
    }
    let name = &comps[comps.len() - 1];
    assert(name@ == path_components(crate::text::split_by(file_path@, '/')).last());
    let dotdot = chars_of("..");
    if crate::text::chars_eq(name.as_slice(), dotdot.as_slice()) {
        return None;
    }
    let dots = crate::text::split_chars(name.as_slice(), '.');
    if dots.len() < 2 {
        return None;
    }
    if dots.len() == 2 && dots[0].len() == 0 {
        return None;
    }
    let last = &dots[dots.len() - 1];
    Some(crate::text::string_of(last.as_slice()))
}

/// The `Content-Type` header value for a file path, chosen by its
/// lower-cased extension.
pub fn get_file_type_header(file_path: &str) -> (r: String)
    ensures
        r@ == file_type_header(file_path@),
{
    match file_extension(file_path) {
        Some(e) => {
            let lower = to_lowercase(e.as_str());
            let lc = chars_of(lower.as_str());
            media_type_of(lc.as_slice())
        },
        None => copy_string("application/octet-stream"),
    }
}

} // verus!
