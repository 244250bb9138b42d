//! # File Body
//!
//! Extraction of the files of a `multipart/form-data` request body. Each
//! part starts with a boundary line, a `Content-Disposition` line naming the
//! file, a `Content-Type` line and an empty line; its data runs up to the
//! next `\r\n--boundary`.

use vstd::prelude::*;
use vstd::utf8::{decode_utf8, encode_utf8, valid_utf8};

use crate::str_map::{Entries, lookup};
use crate::text::{
    chars_eq,
    chars_of,
    is_prefix,
    spec_trim,
    split_by,
    split_chars,
    split_once,
    split_once_chars,
    starts_with,
    string_of,
    trim,
    strip_char,
    without_char,
};
use crate::web::http_request::HttpRequestMeta;

verus! {

/// A file sent in a multipart form body.
pub struct FileBody {
    file_name: String,
    content_type: String,
    data: Vec<u8>,
}

/// The value of a file: its name, its content type and its data.
pub type FileView = (Seq<char>, Seq<char>, Seq<u8>);

impl FileBody {
    /// The name, content type and data of the file.
    pub closed spec fn parts(self) -> FileView {
        (self.file_name@, self.content_type@, self.data@)
    }

    /// Name of the file
    pub fn name(&self) -> (r: &String)
        ensures
            r@ == self.parts().0,
    {
        &self.file_name
    }

    /// File's content type
    pub fn content_type(&self) -> (r: &String)
        ensures
            r@ == self.parts().1,
    {
        &self.content_type
    }

    /// File data
    pub fn file_data(&self) -> (r: &Vec<u8>)
        ensures
            r@ == self.parts().2,
    {
        &self.data
    }
}

/// Why a part of a multipart body could not be read.
#[derive(Debug)]
pub enum FileReadError {
    /// The part does not start with the boundary line.
    BoundaryNoMatch,
    /// The disposition line names no file.
    FileNameMissing,
    /// A line could not be read as text.
    ReadError(std::io::Error),
    /// The content type line holds no `:`.
    ContentTypeMissing,
}

impl From<std::io::Error> for FileReadError {
    fn from(value: std::io::Error) -> (r: Self) {
        FileReadError::ReadError(value)
    }
}

impl vstd::std_specs::convert::FromSpecImpl<std::io::Error> for FileReadError {
    open spec fn obeys_from_spec() -> bool {
        true
    }

    open spec fn from_spec(value: std::io::Error) -> FileReadError {
        FileReadError::ReadError(value)
    }
}

/// Turns the files of a request body into [`FileBody`] values.
pub trait FileMetaExtension {
    /// # As Files
    ///
    /// The files of the body, in order.
    fn as_files(&self) -> Vec<FileBody>;
}

/// `std::str::from_utf8`: the text of the bytes, when they are valid UTF-8.
#[verifier::external_body]
fn utf8_text(b: &[u8]) -> (r: Option<&str>)
    ensures
        r is Some <==> valid_utf8(b@),
        r matches Some(s) ==> s@ == decode_utf8(b@),
{
    std::str::from_utf8(b).ok()
}

/// The error that reading a line of invalid UTF-8 as text reports
/// (`std::io::Error::new` with kind `InvalidData`).
#[verifier::external_body]
fn invalid_text_error() -> std::io::Error {
    std::io::Error::new(std::io::ErrorKind::InvalidData, "stream did not contain valid UTF-8")
}

/// `i` is the first newline at or after `pos`.
pub open spec fn first_newline(b: Seq<u8>, pos: int, i: int) -> bool {
    pos <= i < b.len() && b[i] == 10 && forall|j: int| pos <= j < i ==> #[trigger] b[j] != 10
}

/// Where the line starting at `pos` ends: just after its newline, or at the
/// end of the input when no newline follows.
pub open spec fn line_end(b: Seq<u8>, pos: int) -> int {
    if exists|i: int| first_newline(b, pos, i) {
        (choose|i: int| first_newline(b, pos, i)) + 1
    } else {
        b.len() as int
    }
}

/// The text of the line starting at `pos`, newline included, when it is
/// valid UTF-8.
pub open spec fn line_text(b: Seq<u8>, pos: int) -> Option<Seq<char>> {
    let l = b.subrange(pos, line_end(b, pos));
    if valid_utf8(l) {
        Some(decode_utf8(l))
    } else {
        None
    }
}

/// `i` is the first of `parts` that, trimmed, starts with `filename`.
pub open spec fn first_filename(parts: Seq<Seq<char>>, i: int) -> bool {
    &&& 0 <= i < parts.len()
    &&& is_prefix("filename"@, spec_trim(parts[i]))
    &&& forall|j: int| 0 <= j < i ==> !is_prefix("filename"@, spec_trim(#[trigger] parts[j]))
}

/// The file name a disposition line gives: after the first `:`, the first
/// `;`-separated parameter that (trimmed) starts with `filename`, its value
/// after the first `=`, trimmed, without quotes.
pub open spec fn disposition_file_name(line: Seq<char>) -> Option<Seq<char>> {
    match split_once(line, ':') {
        None => None,
        Some((_, data)) => {
            let parts = split_by(data, ';');
            if exists|i: int| first_filename(parts, i) {
                let i = choose|i: int| first_filename(parts, i);
                match split_once(spec_trim(parts[i]), '=') {
                    Some((_, name)) => Some(without_char(spec_trim(name), '"')),
                    None => None,
                }
            } else {
                None
            }
        },
    }
}

/// The content type a content-type line gives: after the first `:`, trimmed.
pub open spec fn line_content_type(line: Seq<char>) -> Option<Seq<char>> {
    match split_once(line, ':') {
        Some((_, t)) => Some(spec_trim(t)),
        None => None,
    }
}

/// `j` is the first position in `b` from `pos` on where `pat` occurs.
pub open spec fn first_occurrence(b: Seq<u8>, pos: int, pat: Seq<u8>, j: int) -> bool {
    &&& pos <= j
    &&& j + pat.len() <= b.len()
    &&& b.subrange(j, j + pat.len()) == pat
    &&& forall|k: int|
        pos <= k < j ==> !(k + pat.len() <= b.len() && #[trigger] b.subrange(k, k + pat.len()) == pat)
}

/// The data from `pos` up to the next occurrence of `pat`, and the position
/// where that occurrence starts; the rest of the input, and its end, when
/// `pat` does not occur.
pub open spec fn data_until(b: Seq<u8>, pos: int, pat: Seq<u8>) -> (Seq<u8>, int) {
    if exists|j: int| first_occurrence(b, pos, pat, j) {
        let j = choose|j: int| first_occurrence(b, pos, pat, j);
        (b.subrange(pos, j), j)
    } else {
        (b.subrange(pos, b.len() as int), b.len() as int)
    }
}

/// Why a part of a multipart body cannot be read.
pub enum PartFailure {
    /// A line is not valid UTF-8.
    Unreadable,
    /// The first line is not the boundary line.
    BoundaryNoMatch,
    /// The disposition line names no file.
    FileNameMissing,
    /// The content-type line holds no `:`.
    ContentTypeMissing,
}

/// The part that starts at `pos`: its file and where the next part starts,
/// or why it cannot be read. A part is the boundary line `--boundary\r\n`,
/// a disposition line naming the file, a content-type line, one more line,
/// and the data up to the next `\r\n--boundary`; the next part starts at
/// that boundary, after the `\r\n` that ends the data.
pub open spec fn part_result(b: Seq<u8>, pos: int, boundary: Seq<char>) -> Result<(FileView, int), PartFailure> {
    let e1 = line_end(b, pos);
    match line_text(b, pos) {
        None => Err(PartFailure::Unreadable),
        Some(l1) => if l1 != "--"@ + boundary + "\r\n"@ {
            Err(PartFailure::BoundaryNoMatch)
        } else {
            let e2 = line_end(b, e1);
            match line_text(b, e1) {
                None => Err(PartFailure::Unreadable),
                Some(l2) => match disposition_file_name(l2) {
                    None => Err(PartFailure::FileNameMissing),
                    Some(name) => {
                        let e3 = line_end(b, e2);
                        match line_text(b, e2) {
                            None => Err(PartFailure::Unreadable),
                            Some(l3) => match line_content_type(l3) {
                                None => Err(PartFailure::ContentTypeMissing),
                                Some(ct) => {
                                    let e4 = line_end(b, e3);
                                    match line_text(b, e3) {
                                        None => Err(PartFailure::Unreadable),
                                        Some(_) => {
                                            let (data, stop) = data_until(
                                                b,
                                                e4,
                                                encode_utf8("\r\n--"@ + boundary),
                                            );
                                            let next = if stop < b.len() {
                                                stop + 2
                                            } else {
                                                stop
                                            };
                                            Ok(((name, ct, data), next))
                                        },
                                    }
                                },
                            },
                        }
                    },
                },
            }
        },
    }
}

/// `pat` occurs in `b` at position `k`.
pub open spec fn occurs_in_at(b: Seq<u8>, k: int, pat: Seq<u8>) -> bool {
    0 <= k && k + pat.len() <= b.len() && b.subrange(k, k + pat.len()) == pat
}

proof fn lemma_line_end_within(b: Seq<u8>, pos: int)
    requires
        0 <= pos <= b.len(),
    ensures
        pos <= line_end(b, pos) <= b.len(),
{
    if exists|i: int| first_newline(b, pos, i) {
        let i = choose|i: int| first_newline(b, pos, i);
        assert(first_newline(b, pos, i));
    }
}

proof fn lemma_some_occurrence_is_first(b: Seq<u8>, pos: int, pat: Seq<u8>, k: int)
    requires
        0 <= pos <= k,
        occurs_in_at(b, k, pat),
    ensures
        exists|j: int| first_occurrence(b, pos, pat, j),
    decreases k - pos,
{
    if forall|q: int| pos <= q < k ==> !(q + pat.len() <= b.len() && #[trigger] b.subrange(q, q + pat.len()) == pat) {
        assert(first_occurrence(b, pos, pat, k));
    } else {
        let q = choose|q: int| pos <= q < k && (q + pat.len() <= b.len() && #[trigger] b.subrange(q, q + pat.len()) == pat);
        assert(occurs_in_at(b, q, pat));
        lemma_some_occurrence_is_first(b, pos, pat, q);
    }
}

/// A file's data runs up to the next `\r\n--` followed by the boundary:
/// the data read for a part stands in the body after the part's start, no
/// such delimiter begins inside it, and it is followed by the delimiter or by
/// the end of the body, whatever CR and LF bytes it holds.
pub proof fn lemma_part_data_runs_to_delimiter(b: Seq<u8>, pos: int, boundary: Seq<char>)
    requires
        0 <= pos <= b.len(),
    ensures
        part_result(b, pos, boundary) matches Ok((f, next)) ==> exists|s: int|
            #![trigger b.subrange(s, s + f.2.len())]
            pos <= s && s + f.2.len() <= b.len() && b.subrange(s, s + f.2.len()) == f.2 && (forall|k: int|
                s <= k < s + f.2.len() ==> !occurs_in_at(b, k, encode_utf8("\r\n--"@ + boundary)))
                && (s + f.2.len() == b.len() || occurs_in_at(
                b,
                s + f.2.len(),
                encode_utf8("\r\n--"@ + boundary),
            )),
{
    let d = encode_utf8("\r\n--"@ + boundary);
    if part_result(b, pos, boundary) is Ok {
        let e1 = line_end(b, pos);
        lemma_line_end_within(b, pos);
        let e2 = line_end(b, e1);
        lemma_line_end_within(b, e1);
        let e3 = line_end(b, e2);
        lemma_line_end_within(b, e2);
        let e4 = line_end(b, e3);
        lemma_line_end_within(b, e3);
        let (data, stop) = data_until(b, e4, d);
        let f = part_result(b, pos, boundary)->Ok_0.0;
        assert(f.2 == data);
        if exists|j: int| first_occurrence(b, e4, d, j) {
            let j = choose|j: int| first_occurrence(b, e4, d, j);
            assert(first_occurrence(b, e4, d, j));
            assert(data == b.subrange(e4, j));
            assert forall|k: int| e4 <= k < j implies !occurs_in_at(b, k, d) by {
                if occurs_in_at(b, k, d) {
                    assert(k + d.len() <= b.len() && b.subrange(k, k + d.len()) == d);
                }
            }
            assert(occurs_in_at(b, j, d));
            assert(b.subrange(e4, e4 + f.2.len()) == f.2);
        } else {
            assert(data == b.subrange(e4, b.len() as int));
            assert forall|k: int| e4 <= k < b.len() implies !occurs_in_at(b, k, d) by {
                if occurs_in_at(b, k, d) {
                    lemma_some_occurrence_is_first(b, e4, d, k);
                }
            }
            assert(b.subrange(e4, e4 + f.2.len()) == f.2);
        }
    }
}

/// The files of the parts from `pos` on, up to the first part that cannot
/// be read.
pub open spec fn files_from(b: Seq<u8>, pos: int, boundary: Seq<char>) -> Seq<FileView>
    decreases b.len() - pos,
{
    match part_result(b, pos, boundary) {
        Err(_) => seq![],
        Ok((f, next)) => if pos < next <= b.len() {
            seq![f] + files_from(b, next, boundary)
        } else {
            seq![f]
        },
    }
}

/// The boundary a `content-type` header announces for `multipart/form-data`:
/// the media type before the first `;` must be exactly that, and the
/// boundary is what follows the first `=` after it.
pub open spec fn form_boundary(headers: Entries) -> Option<Seq<char>> {
    match lookup(headers, "content-type"@) {
        None => None,
        Some(s) => match split_once(s, ';') {
            None => None,
            Some((media, rest)) => if media != "multipart/form-data"@ {
                None
            } else {
                match split_once(rest, '=') {
                    Some((_, key)) => Some(key),
                    None => None,
                }
            },
        },
    }
}

/// The files of a request: those of its body when its `content-type`
/// announces a form boundary, none otherwise.
pub open spec fn request_files(headers: Entries, body: Seq<u8>) -> Seq<FileView> {
    match form_boundary(headers) {
        Some(k) => files_from(body, 0, k),
        None => seq![],
    }
}

/// Where the line starting at `pos` ends.
fn line_end_at(b: &[u8], pos: usize) -> (r: usize)
    requires
        pos <= b@.len(),
    ensures
        r as int == line_end(b@, pos as int),
        pos <= r <= b@.len(),
{
    let mut i: usize = pos;
    while i < b.len()
        invariant
            pos <= i <= b@.len(),
            forall|j: int| pos <= j < i ==> #[trigger] b@[j] != 10,
        decreases b@.len() - i,
    {
        if b[i] == 10 {
            proof {
                assert(first_newline(b@, pos as int, i as int));
                let k = choose|k: int| first_newline(b@, pos as int, k);
                assert(first_newline(b@, pos as int, k));
                if k < i {
                    assert(b@[k] != 10);
                } else if i < k {
                    assert(b@[i as int] != 10);
                }
            }
            return i + 1;
        }
        i = i + 1;
    }
    assert forall|k: int| !first_newline(b@, pos as int, k) by {
        if first_newline(b@, pos as int, k) {
            assert(b@[k] != 10);
        }
    }
    i
}

/// The bytes of `b` from `from` to `to`.
fn sub_bytes(b: &[u8], from: usize, to: usize) -> (r: Vec<u8>)
    requires
        from <= to <= b@.len(),
    ensures
        r@ == b@.subrange(from as int, to as int),
{
    let mut v: Vec<u8> = Vec::new();
    let mut i: usize = from;
    while i < to
        invariant
            from <= i <= to,
            to <= b@.len(),
            v@ == b@.subrange(from as int, i as int),
        decreases to - i,
    {
        v.push(b[i]);
        i = i + 1;
    }
    v
}

/// The text of the line starting at `pos`, and where it ends.
fn read_line_at(b: &[u8], pos: usize) -> (r: (Result<String, FileReadError>, usize))
    requires
        pos <= b@.len(),
    ensures
        r.1 as int == line_end(b@, pos as int),
        pos <= r.1 <= b@.len(),
        match line_text(b@, pos as int) {
            Some(t) => r.0 matches Ok(s) && s@ == t,
            None => r.0 matches Err(FileReadError::ReadError(_)),
        },
{
    let end = line_end_at(b, pos);
    let line = sub_bytes(b, pos, end);
    match utf8_text(line.as_slice()) {
        Some(s) => (Ok(crate::text::copy_string(s)), end),
        None => (Err(FileReadError::ReadError(invalid_text_error())), end),
    }
}

/// The file name a disposition line gives.
fn file_name_of(line: &str) -> (r: Option<String>)
    ensures
        match disposition_file_name(line@) {
            Some(n) => r matches Some(x) && x@ == n,
            None => r is None,
        },
{
    let cs = chars_of(line);
    let data = match split_once_chars(cs.as_slice(), ':') {
        Some((_, data)) => data,
        None => return None,
    };
    let parts = split_chars(data.as_slice(), ';');
    let prefix = chars_of("filename");
    let mut i: usize = 0;
    while i < parts.len()
        invariant
            i <= parts@.len(),
            prefix@ == "filename"@,
            crate::text::views(parts@) == split_by(data@, ';'),
            split_once(line@, ':') matches Some((_, d)) && d == data@,
            forall|j: int|
                0 <= j < i ==> !is_prefix(
                    "filename"@,
                    spec_trim(#[trigger] crate::text::views(parts@)[j]),
                ),
        decreases parts@.len() - i,
    {
        assert(crate::text::views(parts@)[i as int] == parts@[i as int]@);
        let piece = string_of(parts[i].as_slice());
        let t = trim(piece.as_str());
        let tc = chars_of(t);
        if starts_with(tc.as_slice(), prefix.as_slice()) {
            let ghost ps = crate::text::views(parts@);
            assert(first_filename(ps, i as int));
            proof {
                let k = choose|k: int| first_filename(ps, k);
                assert(first_filename(ps, k));
                if k < i {
                    assert(!is_prefix("filename"@, spec_trim(ps[k])));
                } else if (i as int) < k {
                    assert(!is_prefix("filename"@, spec_trim(ps[i as int])));
                }
            }
            assert(tc@ == spec_trim(ps[i as int]));
            assert(split_once(line@, ':') matches Some((_, d)) && d == data@);
            return match split_once_chars(tc.as_slice(), '=') {
                Some((_, name)) => {
                    let name = string_of(name.as_slice());
                    let name = trim(name.as_str());
                    let nc = chars_of(name);
                    let stripped = strip_char(nc.as_slice(), '"');
                    Some(string_of(stripped.as_slice()))
                },
                None => None,
            };
        }
        i = i + 1;
    }
    assert forall|k: int| !first_filename(crate::text::views(parts@), k) by {
        if first_filename(crate::text::views(parts@), k) {
            assert(!is_prefix("filename"@, spec_trim(crate::text::views(parts@)[k])));
        }
    }
    None
}

/// The content type a content-type line gives.
fn content_type_of(line: &str) -> (r: Option<String>)
    ensures
        match line_content_type(line@) {
            Some(t) => r matches Some(x) && x@ == t,
            None => r is None,
        },
{
    let cs = chars_of(line);
    match split_once_chars(cs.as_slice(), ':') {
        Some((_, t)) => {
            let t = string_of(t.as_slice());
            Some(crate::text::copy_string(trim(t.as_str())))
        },
        None => None,
    }
}

/// Whether `pat` occurs in `b` at `at`.
fn occurs_at(b: &[u8], at: usize, pat: &[u8]) -> (r: bool)
    requires
        at + pat@.len() <= b@.len(),
    ensures
        r == (b@.subrange(at as int, at + pat@.len()) == pat@),
{
    let n = b.len();
    let mut i: usize = 0;
    while i < pat.len()
        invariant
            i <= pat@.len(),
            n == b@.len(),
            at + pat@.len() <= b@.len(),
            forall|j: int| 0 <= j < i ==> b@[at + j] == #[trigger] pat@[j],
        decreases pat@.len() - i,
    {
        if b[at + i] != pat[i] {
            assert(b@.subrange(at as int, at + pat@.len())[i as int] != pat@[i as int]);
            return false;
        }
        i = i + 1;
    }
    assert(b@.subrange(at as int, at + pat@.len()) == pat@);
    true
}

/// The data from `pos` up to the next occurrence of `pat`, read one byte at
/// a time, and where reading stopped.
fn read_until_next_boundary(b: &[u8], pos: usize, pat: &[u8]) -> (r: (Vec<u8>, usize))
    requires
        pos <= b@.len(),
        pat@.len() > 0,
    ensures
        (r.0@, r.1 as int) == data_until(b@, pos as int, pat@),
        pos <= r.1 <= b@.len(),
        r.1 < b@.len() ==> r.1 + pat@.len() <= b@.len(),
{
    let n = b.len();
    let plen = pat.len();
    let mut end: usize = pos;
    while end < n
        invariant
            pos <= end <= n,
            n == b@.len(),
            plen == pat@.len(),
            plen > 0,
            forall|k: int|
                pos <= k && k + plen <= end ==> !(#[trigger] b@.subrange(k, k + plen) == pat@),
        decreases n - end,
    {
        end = end + 1;
        if end - pos >= plen && occurs_at(b, end - plen, pat) {
            let j = end - plen;
            proof {
                assert(first_occurrence(b@, pos as int, pat@, j as int));
                let q = choose|q: int| first_occurrence(b@, pos as int, pat@, q);
                assert(first_occurrence(b@, pos as int, pat@, q));
                if q < j {
                    assert(!(b@.subrange(q, q + plen) == pat@));
                } else if (j as int) < q {
                    assert(!(j + plen <= b@.len() && b@.subrange(j as int, j + plen) == pat@));
                }
            }
            let data = sub_bytes(b, pos, j);
            return (data, j);
        }
    }
    assert forall|q: int| !first_occurrence(b@, pos as int, pat@, q) by {
        if first_occurrence(b@, pos as int, pat@, q) {
            assert(!(b@.subrange(q, q + plen) == pat@));
        }
    }
    (sub_bytes(b, pos, n), n)
}

/// Reads the part that starts at `pos`: its file and where the next part starts.
fn read_file(boundary: &str, b: &[u8], pos: usize) -> (r: Result<(FileBody, usize), FileReadError>)
    requires
        pos <= b@.len(),
    ensures
        match part_result(b@, pos as int, boundary@) {
            Ok((f, next)) => r matches Ok((x, k)) && x.parts() == f && k == next && pos < k
                <= b@.len(),
            Err(PartFailure::Unreadable) => r matches Err(FileReadError::ReadError(_)),
            Err(PartFailure::BoundaryNoMatch) => r matches Err(FileReadError::BoundaryNoMatch),
            Err(PartFailure::FileNameMissing) => r matches Err(FileReadError::FileNameMissing),
            Err(PartFailure::ContentTypeMissing) => r matches Err(FileReadError::ContentTypeMissing),
        },
{
    let (l1, e1) = read_line_at(b, pos);
    let l1 = l1?;
    let mut expected = chars_of("--");
    let mut bc = chars_of(boundary);
    expected.append(&mut bc);
    let mut crlf = chars_of("\r\n");
    expected.append(&mut crlf);
    let l1c = chars_of(l1.as_str());
    if !chars_eq(l1c.as_slice(), expected.as_slice()) {
        return Err(FileReadError::BoundaryNoMatch);
    }
    proof {
        reveal_strlit("--");
        assert(l1@.len() > 0);
        if e1 == pos {
            assert(b@.subrange(pos as int, e1 as int).len() == 0);
            assert(decode_utf8(b@.subrange(pos as int, e1 as int)) =~= Seq::<char>::empty());
        }
    }
    let (l2, e2) = read_line_at(b, e1);
    let l2 = l2?;
    let file_name = match file_name_of(l2.as_str()) {
        Some(n) => n,
        None => return Err(FileReadError::FileNameMissing),
    };
    let (l3, e3) = read_line_at(b, e2);
    let l3 = l3?;
    let content_type = match content_type_of(l3.as_str()) {
        Some(t) => t,
        None => return Err(FileReadError::ContentTypeMissing),
    };
    let (l4, e4) = read_line_at(b, e3);
    let _empty = l4?;
    let mut pattern_chars = chars_of("\r\n--");
    let mut bc2 = chars_of(boundary);
    pattern_chars.append(&mut bc2);
    let pattern_text = string_of(pattern_chars.as_slice());
    let pattern = vstd::slice::slice_to_vec(pattern_text.as_str().as_bytes());
    assert(pattern@ == encode_utf8("\r\n--"@ + boundary@));
    proof {
        reveal_strlit("\r\n--");
        assert(pattern_chars@.len() > 0);
        assert(vstd::utf8::encode_scalar(pattern_chars@[0] as u32).len() >= 1);
        assert(pattern_chars@.drop_first().len() > 0);
        assert(vstd::utf8::encode_scalar(pattern_chars@.drop_first()[0] as u32).len() >= 1);
        assert(encode_utf8(pattern_chars@.drop_first()).len() >= 1);
        assert(encode_utf8(pattern_chars@).len() >= 2);
    }
    let (data, stop) = read_until_next_boundary(b, e4, pattern.as_slice());
    let next = if stop < b.len() {
        stop + 2
    } else {
        stop
    };
    Ok((FileBody { file_name, content_type, data }, next))
}

/// The boundary announced by the `content-type` header.
fn boundary_key(meta: &HttpRequestMeta) -> (r: Option<String>)
    ensures
        match form_boundary(meta.header_list()) {
            Some(k) => r matches Some(x) && x@ == k,
            None => r is None,
        },
{
    let s = match meta.headers().get("content-type") {
        Some(s) => s,
        None => return None,
    };
    let cs = chars_of(s.as_str());
    let (media, rest) = match split_once_chars(cs.as_slice(), ';') {
        Some(p) => p,
        None => return None,
    };
    let form = chars_of("multipart/form-data");
    if !chars_eq(media.as_slice(), form.as_slice()) {
        return None;
    }
    match split_once_chars(rest.as_slice(), '=') {
        Some((_, key)) => Some(string_of(key.as_slice())),
        None => None,
    }
}

impl FileMetaExtension for HttpRequestMeta {
    /// The files of the body, in order, up to the first part that cannot be
    /// read; none when the `content-type` announces no form boundary. The
    /// boundary is taken from the stored `content-type` value, which the
    /// parser lower-cases: a body whose boundary lines hold capital letters
    /// does not match it, and gives no file.
    fn as_files(&self) -> (r: Vec<FileBody>)
        ensures
            r@.map_values(|f: FileBody| f.parts()) == request_files(
                self.header_list(),
                self.body_bytes(),
            ),
    {
        let mut files: Vec<FileBody> = Vec::new();
        let boundary = match boundary_key(self) {
            Some(k) => k,
            None => return files,
        };
        let b = self.body_ref().as_slice();
        let mut pos: usize = 0;
        loop
            invariant
                pos <= b@.len(),
                b@ == self.body_bytes(),
                form_boundary(self.header_list()) == Some(boundary@),
                files@.map_values(|f: FileBody| f.parts()) + files_from(b@, pos as int, boundary@)
                    == files_from(b@, 0, boundary@),
            ensures
                files@.map_values(|f: FileBody| f.parts()) == files_from(b@, 0, boundary@),
            decreases b@.len() - pos,
        {
            match read_file(boundary.as_str(), b, pos) {
                Ok((file, next)) => {
                    let ghost before = files@.map_values(|f: FileBody| f.parts());
                    let ghost f = file.parts();
                    files.push(file);
                    assert(files@.map_values(|f: FileBody| f.parts()) == before.push(f));
                    assert(before + files_from(b@, pos as int, boundary@) == before.push(f)
                        + files_from(b@, next as int, boundary@));
                    pos = next;
                },
                Err(_) => {
                    assert(files_from(b@, pos as int, boundary@) == Seq::<FileView>::empty());
                    assert(files@.map_values(|f: FileBody| f.parts()) + Seq::<FileView>::empty()
                        == files@.map_values(|f: FileBody| f.parts()));
                    break;
                },
            }
        }
        files
    }
}

} // verus!
