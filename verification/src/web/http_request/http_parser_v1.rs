//! # HTTP/1.1 Parser
//!
//! The rules by which an HTTP/1.1 request head is read: the request line,
//! the header lines, how the body is framed, and chunk sizes. The reading
//! itself happens where the connection is; each rule here decides what one
//! line, or the collected headers, mean.

use vstd::prelude::*;

use crate::str_map::{lookup, StrMap};
use crate::text::{
    chars_eq,
    chars_of,
    all_hex,
    lemma_hex_value_nonneg,
    parse_hex,
    parse_hex_spec,
    parse_usize,
    parse_usize_spec,
    spec_lowercase,
    spec_trim,
    spec_uppercase,
    split_by,
    split_chars,
    split_once,
    split_once_chars,
    string_of,
    sub_chars,
    to_lowercase,
    to_uppercase,
    trim,
};
use crate::web::http_request::{HeaderMap, HttpParseError};
use crate::web::{HttpMethod, MethodName, method_of};

verus! {

/// # HttpParserV1
///
/// HTTP/1.1 request-head parser.
pub struct HttpParserV1;

/// How the body of a request is delimited.
#[derive(Debug, Clone, Copy, PartialEq, Eq, Structural)]
pub enum BodyFraming {
    /// The request has no body.
    Empty,
    /// The body is this many bytes long.
    Fixed(usize),
    /// The body comes in chunks, each announced by a size line.
    Chunked,
}

/// The route and method that a request line gives: the method is the first
/// space-separated piece, upper-cased; the route is the second piece.
pub open spec fn route_meta(line: Seq<char>) -> Option<(Seq<char>, MethodName)> {
    let pieces = split_by(line, ' ');
    if pieces.len() < 2 {
        None
    } else {
        Some((pieces[1], method_of(spec_uppercase(pieces[0]))))
    }
}

/// The meaning of a header line: `None` for the blank line that ends the
/// head; otherwise the name before the first `:` (trimmed, lower-cased) and
/// the value after it (lower-cased, kept as it stands otherwise); no `:`
/// makes the line invalid.
pub open spec fn header_line(line: Seq<char>) -> Result<Option<(Seq<char>, Seq<char>)>, ()> {
    let t = spec_trim(line);
    if t.len() == 0 {
        Ok(None)
    } else {
        match split_once(t, ':') {
            Some((name, value)) => Ok(Some((spec_lowercase(spec_trim(name)), spec_lowercase(value)))),
            None => Err(()),
        }
    }
}

/// A header line is split at its first `:`: the name is the trimmed line up
/// to its first `:`, which therefore holds no `:`, and the value is all that
/// follows that `:`, further `:` included; a line without `:` is refused,
/// and a blank line ends the head.
pub proof fn lemma_header_split_at_first_colon(line: Seq<char>, i: int)
    ensures
        spec_trim(line).len() == 0 ==> header_line(line) == Ok::<Option<(Seq<char>, Seq<char>)>, ()>(None),
        spec_trim(line).len() > 0 && (forall|j: int| 0 <= j < spec_trim(line).len() ==> spec_trim(line)[j] != ':')
            ==> header_line(line) is Err,
        (0 <= i < spec_trim(line).len() && spec_trim(line)[i] == ':' && forall|j: int|
            0 <= j < i ==> spec_trim(line)[j] != ':') ==> header_line(line) == Ok::<
            Option<(Seq<char>, Seq<char>)>,
            (),
        >(Some((spec_lowercase(spec_trim(spec_trim(line).take(i))), spec_lowercase(spec_trim(line).skip(i + 1))))),
{
    let t = spec_trim(line);
    if t.len() > 0 {
        if forall|j: int| 0 <= j < t.len() ==> t[j] != ':' {
            assert forall|p: int| !crate::text::first_at(t, ':', p) by {
                if crate::text::first_at(t, ':', p) {
                    assert(t[p] == ':');
                }
            }
        }
        if 0 <= i < t.len() && t[i] == ':' && forall|j: int| 0 <= j < i ==> t[j] != ':' {
            assert(crate::text::first_at(t, ':', i));
            let k = crate::text::first_index_of(t, ':');
            assert(crate::text::first_at(t, ':', k));
            if k < i {
                assert(t[k] != ':');
            } else if i < k {
                assert(t[i] != ':');
            }
        }
    }
}

/// The framing of a body from the headers: a `content-length` decides when
/// present (its value, trimmed, must be a number); otherwise a
/// `transfer-encoding`, whose value, trimmed, must be `chunked`; otherwise
/// there is no body.
pub open spec fn framing(headers: Seq<(Seq<char>, Seq<char>)>) -> Result<BodyFraming, Option<Seq<char>>> {
    match lookup(headers, "content-length"@) {
        Some(v) => match parse_usize_spec(spec_trim(v)) {
            Some(n) => Ok(BodyFraming::Fixed(n as usize)),
            None => Err(None),
        },
        None => match lookup(headers, "transfer-encoding"@) {
            Some(t) => if spec_trim(t) == "chunked"@ {
                Ok(BodyFraming::Chunked)
            } else {
                Err(Some(t))
            },
            None => Ok(BodyFraming::Empty),
        },
    }
}

/// What a chunk-size line asks for.
#[derive(Debug, Clone, Copy, PartialEq, Eq, Structural)]
pub enum ChunkAction {
    /// Read a chunk of this many bytes, followed by `\r\n`.
    Read(usize),
    /// The body is complete.
    Finish,
}

/// The size text of a chunk-size line: the line without a final `\n` and,
/// before it, a final `\r`.
pub open spec fn size_text(line: Seq<char>) -> Seq<char> {
    let a = if line.len() > 0 && line.last() == '\n' {
        line.drop_last()
    } else {
        line
    };
    if a.len() > 0 && a.last() == '\r' {
        a.drop_last()
    } else {
        a
    }
}

/// The chunk size a chunk-size line announces: its size text read as a
/// hexadecimal number that fits in `usize`.
pub open spec fn hex_size_spec(line: Seq<char>) -> Option<int> {
    parse_hex_spec(size_text(line))
}

/// A chunk read after its size line is the `n` announced bytes followed by
/// `\r\n`.
pub open spec fn chunk_well_formed(chunk: Seq<u8>, n: int) -> bool {
    chunk.len() == n + 2 && chunk.skip(n) == seq![13u8, 10u8]
}

impl HttpParserV1 {
    /// Reads the request line: `GET /path HTTP/1.1` gives the route `/path`
    /// and the method `GET`. A line without a route is refused.
    pub fn parse_route_meta(line: &str) -> (r: Result<(String, HttpMethod), HttpParseError>)
        ensures
            match route_meta(line@) {
                Some((route, m)) => r matches Ok((x, y)) && x@ == route && y@ == m,
                None => r matches Err(HttpParseError::MissingRequiredMeta),
            },
    {
        let cs = chars_of(line);
        let pieces = split_chars(cs.as_slice(), ' ');
        proof {
            crate::text::lemma_split_nonempty(line@, ' ');
        }
        assert(crate::text::views(pieces@)[0] == pieces@[0]@);
        let name = string_of(pieces[0].as_slice());
        let upper = to_uppercase(name.as_str());
        let method = HttpMethod::from_exact_name(upper);
        if pieces.len() < 2 {
            return Err(HttpParseError::MissingRequiredMeta);
        }
        assert(crate::text::views(pieces@)[1] == pieces@[1]@);
        let route = string_of(pieces[1].as_slice());
        Ok((route, method))
    }

    /// Reads one header line: `Ok(None)` for the blank line that ends the
    /// head, the lower-cased name (trimmed) and value otherwise, `InvalidHeader` for a
    /// line without `:`.
    pub fn parse_header_line(line: &str) -> (r: Result<Option<(String, String)>, HttpParseError>)
        ensures
            match header_line(line@) {
                Ok(None) => r matches Ok(None),
                Ok(Some((n, v))) => r matches Ok(Some((x, y))) && x@ == n && y@ == v,
                Err(_) => r matches Err(HttpParseError::InvalidHeader),
            },
    {
        let t = trim(line);
        let tc = chars_of(t);
        if tc.len() == 0 {
            return Ok(None);
        }
        match split_once_chars(tc.as_slice(), ':') {
            Some((name, value)) => {
                let name = string_of(name.as_slice());
                let name = to_lowercase(trim(name.as_str()));
                let value = string_of(value.as_slice());
                let value = to_lowercase(value.as_str());
                Ok(Some((name, value)))
            },
            None => Err(HttpParseError::InvalidHeader),
        }
    }

    /// Reads one header line into `headers`. Returns whether more header
    /// lines follow (`false` on the blank line that ends the head).
    pub fn add_header_line(headers: &mut HeaderMap, line: &str) -> (r: Result<bool, HttpParseError>)
        ensures
            match header_line(line@) {
                Ok(None) => r == Ok::<bool, HttpParseError>(false) && final(headers)@ == old(headers)@,
                Ok(Some((n, v))) => r == Ok::<bool, HttpParseError>(true) && final(headers)@
                    == crate::str_map::with_entry(old(headers)@, n, v),
                Err(_) => r matches Err(HttpParseError::InvalidHeader) && final(headers)@ == old(
                    headers,
                )@,
            },
    {
        match HttpParserV1::parse_header_line(line) {
            Ok(Some((name, value))) => {
                headers.insert(name, value);
                Ok(true)
            },
            Ok(None) => Ok(false),
            Err(e) => Err(e),
        }
    }

    /// Decides how the body is delimited, from the headers: `content-length`
    /// must hold a number, surrounding whitespace aside (`InvalidContentLength`
    /// otherwise); without it, a `transfer-encoding` other than `chunked`
    /// (whitespace aside) is `UnsupportedBody`, holding the value as stored.
    pub fn body_framing(headers: &HeaderMap) -> (r: Result<BodyFraming, HttpParseError>)
        ensures
            match framing(headers@) {
                Ok(f) => r == Ok::<BodyFraming, HttpParseError>(f),
                Err(None) => r matches Err(HttpParseError::InvalidContentLength),
                Err(Some(t)) => r matches Err(HttpParseError::UnsupportedBody(x)) && x@ == t,
            },
    {
        match headers.get("content-length") {
            Some(v) => {
                let cs = chars_of(trim(v.as_str()));
                match parse_usize(cs.as_slice()) {
                    Some(n) => Ok(BodyFraming::Fixed(n)),
                    None => Err(HttpParseError::InvalidContentLength),
                }
            },
            None => match headers.get("transfer-encoding") {
                Some(t) => {
                    let tc = chars_of(trim(t.as_str()));
                    let chunked = chars_of("chunked");
                    if chars_eq(tc.as_slice(), chunked.as_slice()) {
                        Ok(BodyFraming::Chunked)
                    } else {
                        Err(HttpParseError::UnsupportedBody(t.clone()))
                    }
                },
                None => Ok(BodyFraming::Empty),
            },
        }
    }

    /// What a chunk-size line of a chunked body asks for: the size is read in
    /// hexadecimal from the line without its line ending; `0` ends the body,
    /// any other size announces a chunk of that many bytes, and a line that
    /// holds no size is `InvalidBufferSize`.
    pub fn chunk_action(size_line: &str) -> (r: Result<ChunkAction, HttpParseError>)
        ensures
            match hex_size_spec(size_line@) {
                None => r matches Err(HttpParseError::InvalidBufferSize),
                Some(n) => if n == 0 {
                    r == Ok::<ChunkAction, HttpParseError>(ChunkAction::Finish)
                } else {
                    r == Ok::<ChunkAction, HttpParseError>(ChunkAction::Read(n as usize))
                },
            },
    {
        let cs = chars_of(size_line);
        let mut n = cs.len();
        if n > 0 && cs[n - 1] == '\n' {
            n = n - 1;
        }
        let ghost a = if size_line@.len() > 0 && size_line@.last() == '\n' {
            size_line@.drop_last()
        } else {
            size_line@
        };
        assert(a == cs@.take(n as int));
        if n > 0 && cs[n - 1] == '\r' {
            n = n - 1;
        }
        let text = sub_chars(cs.as_slice(), 0, n);
        assert(text@ == size_text(size_line@));
        proof {
            if all_hex(text@) {
                lemma_hex_value_nonneg(text@);
            }
        }
        match parse_hex(text.as_slice()) {
            None => Err(HttpParseError::InvalidBufferSize),
            Some(0) => Ok(ChunkAction::Finish),
            Some(size) => Ok(ChunkAction::Read(size)),
        }
    }

    /// Appends a chunk read after its size line: `chunk` must be exactly the
    /// `n` announced bytes followed by `\r\n`, and its `n` data bytes are
    /// appended to `data`; anything else is `InvalidBufferSize` and leaves
    /// `data` as it was.
    pub fn append_chunk(data: &mut Vec<u8>, chunk: &[u8], n: usize) -> (r: Result<(), HttpParseError>)
        ensures
            chunk_well_formed(chunk@, n as int) ==> (r is Ok && final(data)@ == old(data)@ + chunk@.take(
                n as int,
            )),
            !chunk_well_formed(chunk@, n as int) ==> (r matches Err(HttpParseError::InvalidBufferSize)
                && final(data)@ == old(data)@),
    {
        if chunk.len() < 2 || chunk.len() - 2 != n || chunk[n] != 13u8 || chunk[n + 1] != 10u8 {
            proof {
                if chunk_well_formed(chunk@, n as int) {
                    assert(chunk@.skip(n as int)[0] == chunk@[n as int]);
                    assert(chunk@.skip(n as int)[1] == chunk@[n + 1]);
                }
            }
            return Err(HttpParseError::InvalidBufferSize);
        }
        assert(chunk@.skip(n as int) =~= seq![13u8, 10u8]);
        let ghost before = data@;
        let mut i: usize = 0;
        while i < n
            invariant
                i <= n,
                n + 2 == chunk@.len(),
                data@ == before + chunk@.take(i as int),
            decreases n - i,
        {
            data.push(chunk[i]);
            assert(chunk@.take(i + 1) == chunk@.take(i as int).push(chunk@[i as int]));
            i = i + 1;
        }
        Ok(())
    }

    /// Whether a body is read for a request with this method: every method
    /// but `GET` has one.
    pub fn reads_body(method: &HttpMethod) -> (r: bool)
        ensures
            r == !(method@ is GET),
    {
        match method {
            HttpMethod::GET => false,
            _ => true,
        }
    }
}

} // verus!
