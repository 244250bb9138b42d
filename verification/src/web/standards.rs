//! # Standards
//!
//! The registered meanings the framework relies on, written down on their
//! own: the names of the standard HTTP methods, the reason phrases of the
//! standard status codes, and the media types of the known file extensions.
//! Each table comes with the law that ties the framework's conversions to it.

use vstd::prelude::*;

use crate::text::spec_lowercase;
use crate::web::http_code::{HttpCode, spec_code, spec_from_code, spec_status};
use crate::web::response::{file_type_header, media_type, path_extension};
use crate::web::{MethodName, method_of};

verus! {

/// The name HTTP gives a standard method; none for an unknown method.
pub open spec fn standard_name(m: MethodName) -> Option<Seq<char>> {
    match m {
        MethodName::GET => Some("GET"@),
        MethodName::POST => Some("POST"@),
        MethodName::PATCH => Some("PATCH"@),
        MethodName::PUT => Some("PUT"@),
        MethodName::DELETE => Some("DELETE"@),
        MethodName::HEAD => Some("HEAD"@),
        MethodName::OPTIONS => Some("OPTIONS"@),
        MethodName::CONNECT => Some("CONNECT"@),
        MethodName::TRACE => Some("TRACE"@),
        MethodName::Unknown(_) => None,
    }
}

/// Every standard method is denoted by its own name, and a name denotes an
/// unknown method (carrying that name) exactly when it is no standard name.
pub proof fn lemma_standard_names_denote_their_methods(m: MethodName, name: Seq<char>)
    ensures
        standard_name(m) matches Some(s) ==> method_of(s) == m,
        (method_of(name) is Unknown) <==> (forall|k: MethodName| standard_name(k) != Some(name)),
        method_of(name) matches MethodName::Unknown(x) ==> x == name,
{
    reveal_strlit("GET");
    reveal_strlit("POST");
    reveal_strlit("PATCH");
    reveal_strlit("PUT");
    reveal_strlit("DELETE");
    reveal_strlit("HEAD");
    reveal_strlit("OPTIONS");
    reveal_strlit("CONNECT");
    reveal_strlit("TRACE");
    match m {
        MethodName::GET => {
            assert(method_of("GET"@) == MethodName::GET);
        },
        MethodName::POST => {
            assert("POST"@.len() != "GET"@.len());
            assert(method_of("POST"@) == MethodName::POST);
        },
        MethodName::PATCH => {
            assert("PATCH"@.len() != "GET"@.len());
            assert("PATCH"@.len() != "POST"@.len());
            assert(method_of("PATCH"@) == MethodName::PATCH);
        },
        MethodName::PUT => {
            assert("PUT"@[0] != "GET"@[0]);
            assert("PUT"@.len() != "POST"@.len());
            assert("PUT"@.len() != "PATCH"@.len());
            assert(method_of("PUT"@) == MethodName::PUT);
        },
        MethodName::DELETE => {
            assert("DELETE"@.len() != "GET"@.len());
            assert("DELETE"@.len() != "POST"@.len());
            assert("DELETE"@.len() != "PATCH"@.len());
            assert("DELETE"@.len() != "PUT"@.len());
            assert(method_of("DELETE"@) == MethodName::DELETE);
        },
        MethodName::HEAD => {
            assert("HEAD"@[0] != "POST"@[0]);
            assert("HEAD"@.len() != "GET"@.len());
            assert("HEAD"@.len() != "PATCH"@.len());
            assert("HEAD"@.len() != "PUT"@.len());
            assert("HEAD"@.len() != "DELETE"@.len());
            assert(method_of("HEAD"@) == MethodName::HEAD);
        },
        MethodName::OPTIONS => {
            assert("OPTIONS"@.len() != "GET"@.len());
            assert("OPTIONS"@.len() != "POST"@.len());
            assert("OPTIONS"@.len() != "PATCH"@.len());
            assert("OPTIONS"@.len() != "PUT"@.len());
            assert("OPTIONS"@.len() != "DELETE"@.len());
            assert("OPTIONS"@.len() != "HEAD"@.len());
            assert(method_of("OPTIONS"@) == MethodName::OPTIONS);
        },
        MethodName::CONNECT => {
            assert("CONNECT"@[0] != "OPTIONS"@[0]);
            assert("CONNECT"@.len() != "GET"@.len());
            assert("CONNECT"@.len() != "POST"@.len());
            assert("CONNECT"@.len() != "PATCH"@.len());
            assert("CONNECT"@.len() != "PUT"@.len());
            assert("CONNECT"@.len() != "DELETE"@.len());
            assert("CONNECT"@.len() != "HEAD"@.len());
            assert(method_of("CONNECT"@) == MethodName::CONNECT);
        },
        MethodName::TRACE => {
            assert("TRACE"@[0] != "PATCH"@[0]);
            assert("TRACE"@.len() != "GET"@.len());
            assert("TRACE"@.len() != "POST"@.len());
            assert("TRACE"@.len() != "PUT"@.len());
            assert("TRACE"@.len() != "DELETE"@.len());
            assert("TRACE"@.len() != "HEAD"@.len());
            assert("TRACE"@.len() != "OPTIONS"@.len());
            assert("TRACE"@.len() != "CONNECT"@.len());
            assert(method_of("TRACE"@) == MethodName::TRACE);
        },
        MethodName::Unknown(_) => {},
    }
    if method_of(name) is Unknown {
        assert forall|k: MethodName| standard_name(k) != Some(name) by {
            if standard_name(k) == Some(name) {
                assert(method_of(name) == k);
            }
        }
    } else {
        let k = method_of(name);
        assert(standard_name(k) == Some(name));
    }
}

/// The reason phrase registered for a standard status code number; none for
/// a number without a registered phrase here.
pub open spec fn registered_reason(n: u32) -> Option<Seq<char>> {
    if n == 100 {
        Some("Continue"@)
    } else if n == 101 {
        Some("Switching Protocols"@)
    } else if n == 102 {
        Some("Processing"@)
    } else if n == 103 {
        Some("Early Hints"@)
    } else if n == 200 {
        Some("OK"@)
    } else if n == 201 {
        Some("Created"@)
    } else if n == 202 {
        Some("Accepted"@)
    } else if n == 203 {
        Some("Non-Authoritative Information"@)
    } else if n == 204 {
        Some("No Content"@)
    } else if n == 205 {
        Some("Reset Content"@)
    } else if n == 206 {
        Some("Partial Content"@)
    } else if n == 207 {
        Some("Multi-Status"@)
    } else if n == 208 {
        Some("Already Reported"@)
    } else if n == 226 {
        Some("IM Used"@)
    } else if n == 300 {
        Some("Multiple Choices"@)
    } else if n == 301 {
        Some("Moved Permanently"@)
    } else if n == 302 {
        Some("Found"@)
    } else if n == 303 {
        Some("See Other"@)
    } else if n == 304 {
        Some("Not Modified"@)
    } else if n == 305 {
        Some("Use Proxy"@)
    } else if n == 307 {
        Some("Temporary Redirect"@)
    } else if n == 308 {
        Some("Permanent Redirect"@)
    } else if n == 400 {
        Some("Bad Request"@)
    } else if n == 401 {
        Some("Unauthorized"@)
    } else if n == 402 {
        Some("Payment Required"@)
    } else if n == 403 {
        Some("Forbidden"@)
    } else if n == 404 {
        Some("Not Found"@)
    } else if n == 405 {
        Some("Method Not Allowed"@)
    } else if n == 406 {
        Some("Not Acceptable"@)
    } else if n == 407 {
        Some("Proxy Authentication Required"@)
    } else if n == 408 {
        Some("Request Timeout"@)
    } else if n == 409 {
        Some("Conflict"@)
    } else if n == 410 {
        Some("Gone"@)
    } else if n == 411 {
        Some("Length Required"@)
    } else if n == 412 {
        Some("Precondition Failed"@)
    } else if n == 413 {
        Some("Payload Too Large"@)
    } else if n == 414 {
        Some("URI Too Long"@)
    } else if n == 415 {
        Some("Unsupported Media Type"@)
    } else if n == 416 {
        Some("Range Not Satisfiable"@)
    } else if n == 417 {
        Some("Expectation Failed"@)
    } else if n == 418 {
        Some("I'm a teapot"@)
    } else if n == 421 {
        Some("Misdirected Request"@)
    } else if n == 422 {
        Some("Unprocessable Entity"@)
    } else if n == 423 {
        Some("Locked"@)
    } else if n == 424 {
        Some("Failed Dependency"@)
    } else if n == 425 {
        Some("Too Early"@)
    } else if n == 426 {
        Some("Upgrade Required"@)
    } else if n == 428 {
        Some("Precondition Required"@)
    } else if n == 429 {
        Some("Too Many Requests"@)
    } else if n == 431 {
        Some("Request Header Fields Too Large"@)
    } else if n == 451 {
        Some("Unavailable For Legal Reasons"@)
    } else if n == 500 {
        Some("Internal Server Error"@)
    } else if n == 501 {
        Some("Not Implemented"@)
    } else if n == 502 {
        Some("Bad Gateway"@)
    } else if n == 503 {
        Some("Service Unavailable"@)
    } else if n == 504 {
        Some("Gateway Timeout"@)
    } else if n == 505 {
        Some("HTTP Version Not Supported"@)
    } else if n == 506 {
        Some("Variant Also Negotiates"@)
    } else if n == 507 {
        Some("Insufficient Storage"@)
    } else if n == 508 {
        Some("Loop Detected"@)
    } else if n == 510 {
        Some("Not Extended"@)
    } else if n == 511 {
        Some("Network Authentication Required"@)
    } else {
        None
    }
}

/// A status code's number and its reason phrase agree with the registry:
/// every standard variant has the number whose registered phrase is its
/// reason phrase, and every registered number denotes a standard variant.
pub proof fn lemma_status_codes_registered(c: HttpCode, n: u32)
    ensures
        !(c is Other) ==> registered_reason(spec_code(c)) == Some(spec_status(c)),
        registered_reason(n) is Some ==> !(spec_from_code(n) is Other) && spec_code(spec_from_code(n)) == n,
        registered_reason(n) is None ==> spec_from_code(n) == HttpCode::Other(n),
{
}

/// The media types registered for the known file extensions.
pub open spec fn registered_media_types() -> Seq<(Seq<char>, Seq<char>)> {
    seq![
        ("html"@, "text/html"@),
        ("htm"@, "text/html"@),
        ("css"@, "text/css"@),
        ("js"@, "application/javascript"@),
        ("json"@, "application/json"@),
        ("txt"@, "text/plain"@),
        ("csv"@, "text/csv"@),
        ("xml"@, "application/xml"@),
        ("jpg"@, "image/jpeg"@),
        ("jpeg"@, "image/jpeg"@),
        ("png"@, "image/png"@),
        ("gif"@, "image/gif"@),
        ("bmp"@, "image/bmp"@),
        ("webp"@, "image/webp"@),
        ("svg"@, "image/svg+xml"@),
        ("ico"@, "image/x-icon"@),
        ("mp3"@, "audio/mpeg"@),
        ("wav"@, "audio/wav"@),
        ("ogg"@, "audio/ogg"@),
        ("mp4"@, "video/mp4"@),
        ("webm"@, "video/webm"@),
        ("woff"@, "font/woff"@),
        ("woff2"@, "font/woff2"@),
        ("ttf"@, "font/ttf"@),
        ("otf"@, "font/otf"@),
        ("pdf"@, "application/pdf"@),
        ("zip"@, "application/zip"@),
        ("tar"@, "application/x-tar"@),
        ("gz"@, "application/gzip"@),
    ]
}

/// A known extension gives its registered media type: the `Content-Type`
/// of a path whose lower-cased extension is a registered one is the media
/// type registered for it.
pub proof fn lemma_media_types_registered(p: Seq<char>, i: int)
    requires
        0 <= i < registered_media_types().len(),
        path_extension(p) matches Some(e) && spec_lowercase(e) == registered_media_types()[i].0,
    ensures
        file_type_header(p) == registered_media_types()[i].1,
{
    reveal_strlit("html");
    reveal_strlit("htm");
    reveal_strlit("css");
    reveal_strlit("js");
    reveal_strlit("json");
    reveal_strlit("txt");
    reveal_strlit("csv");
    reveal_strlit("xml");
    reveal_strlit("jpg");
    reveal_strlit("jpeg");
    reveal_strlit("png");
    reveal_strlit("gif");
    reveal_strlit("bmp");
    reveal_strlit("webp");
    reveal_strlit("svg");
    reveal_strlit("ico");
    reveal_strlit("mp3");
    reveal_strlit("wav");
    reveal_strlit("ogg");
    reveal_strlit("mp4");
    reveal_strlit("webm");
    reveal_strlit("woff");
    reveal_strlit("woff2");
    reveal_strlit("ttf");
    reveal_strlit("otf");
    reveal_strlit("pdf");
    reveal_strlit("zip");
    reveal_strlit("tar");
    reveal_strlit("gz");
    let t = registered_media_types();
    if i == 0 {
        assert(media_type("html"@) == "text/html"@);
    } else if i == 1 {
        assert("htm"@.len() != "html"@.len());
        assert(media_type("htm"@) == "text/html"@);
    } else if i == 2 {
        assert("css"@[0] != "htm"@[0]);
        assert("css"@.len() != "html"@.len());
        assert(media_type("css"@) == "text/css"@);
    } else if i == 3 {
        assert("js"@.len() != "html"@.len());
        assert("js"@.len() != "htm"@.len());
        assert("js"@.len() != "css"@.len());
        assert(media_type("js"@) == "application/javascript"@);
    } else if i == 4 {
        assert("json"@[0] != "html"@[0]);
        assert("json"@.len() != "htm"@.len());
        assert("json"@.len() != "css"@.len());
        assert("json"@.len() != "js"@.len());
        assert(media_type("json"@) == "application/json"@);
    } else if i == 5 {
        assert("txt"@[0] != "htm"@[0]);
        assert("txt"@[0] != "css"@[0]);
        assert("txt"@.len() != "html"@.len());
        assert("txt"@.len() != "js"@.len());
        assert("txt"@.len() != "json"@.len());
        assert(media_type("txt"@) == "text/plain"@);
    } else if i == 6 {
        assert("csv"@[0] != "htm"@[0]);
        assert("csv"@[2] != "css"@[2]);
        assert("csv"@[0] != "txt"@[0]);
        assert("csv"@.len() != "html"@.len());
        assert("csv"@.len() != "js"@.len());
        assert("csv"@.len() != "json"@.len());
        assert(media_type("csv"@) == "text/csv"@);
    } else if i == 7 {
        assert("xml"@[0] != "htm"@[0]);
        assert("xml"@[0] != "css"@[0]);
        assert("xml"@[0] != "txt"@[0]);
        assert("xml"@[0] != "csv"@[0]);
        assert("xml"@.len() != "html"@.len());
        assert("xml"@.len() != "js"@.len());
        assert("xml"@.len() != "json"@.len());
        assert(media_type("xml"@) == "application/xml"@);
    } else if i == 8 {
        assert("jpg"@[0] != "htm"@[0]);
        assert("jpg"@[0] != "css"@[0]);
        assert("jpg"@[0] != "txt"@[0]);
        assert("jpg"@[0] != "csv"@[0]);
        assert("jpg"@[0] != "xml"@[0]);
        assert("jpg"@.len() != "html"@.len());
        assert("jpg"@.len() != "js"@.len());
        assert("jpg"@.len() != "json"@.len());
        assert(media_type("jpg"@) == "image/jpeg"@);
    } else if i == 9 {
        assert("jpeg"@[0] != "html"@[0]);
        assert("jpeg"@[1] != "json"@[1]);
        assert("jpeg"@.len() != "htm"@.len());
        assert("jpeg"@.len() != "css"@.len());
        assert("jpeg"@.len() != "js"@.len());
        assert("jpeg"@.len() != "txt"@.len());
        assert("jpeg"@.len() != "csv"@.len());
        assert("jpeg"@.len() != "xml"@.len());
        assert("jpeg"@.len() != "jpg"@.len());
        assert(media_type("jpeg"@) == "image/jpeg"@);
    } else if i == 10 {
        assert("png"@[0] != "htm"@[0]);
        assert("png"@[0] != "css"@[0]);
        assert("png"@[0] != "txt"@[0]);
        assert("png"@[0] != "csv"@[0]);
        assert("png"@[0] != "xml"@[0]);
        assert("png"@[0] != "jpg"@[0]);
        assert("png"@.len() != "html"@.len());
        assert("png"@.len() != "js"@.len());
        assert("png"@.len() != "json"@.len());
        assert("png"@.len() != "jpeg"@.len());
        assert(media_type("png"@) == "image/png"@);
    } else if i == 11 {
        assert("gif"@[0] != "htm"@[0]);
        assert("gif"@[0] != "css"@[0]);
        assert("gif"@[0] != "txt"@[0]);
        assert("gif"@[0] != "csv"@[0]);
        assert("gif"@[0] != "xml"@[0]);
        assert("gif"@[0] != "jpg"@[0]);
        assert("gif"@[0] != "png"@[0]);
        assert("gif"@.len() != "html"@.len());
        assert("gif"@.len() != "js"@.len());
        assert("gif"@.len() != "json"@.len());
        assert("gif"@.len() != "jpeg"@.len());
        assert(media_type("gif"@) == "image/gif"@);
    } else if i == 12 {
        assert("bmp"@[0] != "htm"@[0]);
        assert("bmp"@[0] != "css"@[0]);
        assert("bmp"@[0] != "txt"@[0]);
        assert("bmp"@[0] != "csv"@[0]);
        assert("bmp"@[0] != "xml"@[0]);
        assert("bmp"@[0] != "jpg"@[0]);
        assert("bmp"@[0] != "png"@[0]);
        assert("bmp"@[0] != "gif"@[0]);
        assert("bmp"@.len() != "html"@.len());
        assert("bmp"@.len() != "js"@.len());
        assert("bmp"@.len() != "json"@.len());
        assert("bmp"@.len() != "jpeg"@.len());
        assert(media_type("bmp"@) == "image/bmp"@);
    } else if i == 13 {
        assert("webp"@[0] != "html"@[0]);
        assert("webp"@[0] != "json"@[0]);
        assert("webp"@[0] != "jpeg"@[0]);
        assert("webp"@.len() != "htm"@.len());
        assert("webp"@.len() != "css"@.len());
        assert("webp"@.len() != "js"@.len());
        assert("webp"@.len() != "txt"@.len());
        assert("webp"@.len() != "csv"@.len());
        assert("webp"@.len() != "xml"@.len());
        assert("webp"@.len() != "jpg"@.len());
        assert("webp"@.len() != "png"@.len());
        assert("webp"@.len() != "gif"@.len());
        assert("webp"@.len() != "bmp"@.len());
        assert(media_type("webp"@) == "image/webp"@);
    } else if i == 14 {
        assert("svg"@[0] != "htm"@[0]);
        assert("svg"@[0] != "css"@[0]);
        assert("svg"@[0] != "txt"@[0]);
        assert("svg"@[0] != "csv"@[0]);
        assert("svg"@[0] != "xml"@[0]);
        assert("svg"@[0] != "jpg"@[0]);
        assert("svg"@[0] != "png"@[0]);
        assert("svg"@[0] != "gif"@[0]);
        assert("svg"@[0] != "bmp"@[0]);
        assert("svg"@.len() != "html"@.len());
        assert("svg"@.len() != "js"@.len());
        assert("svg"@.len() != "json"@.len());
        assert("svg"@.len() != "jpeg"@.len());
        assert("svg"@.len() != "webp"@.len());
        assert(media_type("svg"@) == "image/svg+xml"@);
    } else if i == 15 {
        assert("ico"@[0] != "htm"@[0]);
        assert("ico"@[0] != "css"@[0]);
        assert("ico"@[0] != "txt"@[0]);
        assert("ico"@[0] != "csv"@[0]);
        assert("ico"@[0] != "xml"@[0]);
        assert("ico"@[0] != "jpg"@[0]);
        assert("ico"@[0] != "png"@[0]);
        assert("ico"@[0] != "gif"@[0]);
        assert("ico"@[0] != "bmp"@[0]);
        assert("ico"@[0] != "svg"@[0]);
        assert("ico"@.len() != "html"@.len());
        assert("ico"@.len() != "js"@.len());
        assert("ico"@.len() != "json"@.len());
        assert("ico"@.len() != "jpeg"@.len());
        assert("ico"@.len() != "webp"@.len());
        assert(media_type("ico"@) == "image/x-icon"@);
    } else if i == 16 {
        assert("mp3"@[0] != "htm"@[0]);
        assert("mp3"@[0] != "css"@[0]);
        assert("mp3"@[0] != "txt"@[0]);
        assert("mp3"@[0] != "csv"@[0]);
        assert("mp3"@[0] != "xml"@[0]);
        assert("mp3"@[0] != "jpg"@[0]);
        assert("mp3"@[0] != "png"@[0]);
        assert("mp3"@[0] != "gif"@[0]);
        assert("mp3"@[0] != "bmp"@[0]);
        assert("mp3"@[0] != "svg"@[0]);
        assert("mp3"@[0] != "ico"@[0]);
        assert("mp3"@.len() != "html"@.len());
        assert("mp3"@.len() != "js"@.len());
        assert("mp3"@.len() != "json"@.len());
        assert("mp3"@.len() != "jpeg"@.len());
        assert("mp3"@.len() != "webp"@.len());
        assert(media_type("mp3"@) == "audio/mpeg"@);
    } else if i == 17 {
        assert("wav"@[0] != "htm"@[0]);
        assert("wav"@[0] != "css"@[0]);
        assert("wav"@[0] != "txt"@[0]);
        assert("wav"@[0] != "csv"@[0]);
        assert("wav"@[0] != "xml"@[0]);
        assert("wav"@[0] != "jpg"@[0]);
        assert("wav"@[0] != "png"@[0]);
        assert("wav"@[0] != "gif"@[0]);
        assert("wav"@[0] != "bmp"@[0]);
        assert("wav"@[0] != "svg"@[0]);
        assert("wav"@[0] != "ico"@[0]);
        assert("wav"@[0] != "mp3"@[0]);
        assert("wav"@.len() != "html"@.len());
        assert("wav"@.len() != "js"@.len());
        assert("wav"@.len() != "json"@.len());
        assert("wav"@.len() != "jpeg"@.len());
        assert("wav"@.len() != "webp"@.len());
        assert(media_type("wav"@) == "audio/wav"@);
    } else if i == 18 {
        assert("ogg"@[0] != "htm"@[0]);
        assert("ogg"@[0] != "css"@[0]);
        assert("ogg"@[0] != "txt"@[0]);
        assert("ogg"@[0] != "csv"@[0]);
        assert("ogg"@[0] != "xml"@[0]);
        assert("ogg"@[0] != "jpg"@[0]);
        assert("ogg"@[0] != "png"@[0]);
        assert("ogg"@[0] != "gif"@[0]);
        assert("ogg"@[0] != "bmp"@[0]);
        assert("ogg"@[0] != "svg"@[0]);
        assert("ogg"@[0] != "ico"@[0]);
        assert("ogg"@[0] != "mp3"@[0]);
        assert("ogg"@[0] != "wav"@[0]);
        assert("ogg"@.len() != "html"@.len());
        assert("ogg"@.len() != "js"@.len());
        assert("ogg"@.len() != "json"@.len());
        assert("ogg"@.len() != "jpeg"@.len());
        assert("ogg"@.len() != "webp"@.len());
        assert(media_type("ogg"@) == "audio/ogg"@);
    } else if i == 19 {
        assert("mp4"@[0] != "htm"@[0]);
        assert("mp4"@[0] != "css"@[0]);
        assert("mp4"@[0] != "txt"@[0]);
        assert("mp4"@[0] != "csv"@[0]);
        assert("mp4"@[0] != "xml"@[0]);
        assert("mp4"@[0] != "jpg"@[0]);
        assert("mp4"@[0] != "png"@[0]);
        assert("mp4"@[0] != "gif"@[0]);
        assert("mp4"@[0] != "bmp"@[0]);
        assert("mp4"@[0] != "svg"@[0]);
        assert("mp4"@[0] != "ico"@[0]);
        assert("mp4"@[2] != "mp3"@[2]);
        assert("mp4"@[0] != "wav"@[0]);
        assert("mp4"@[0] != "ogg"@[0]);
        assert("mp4"@.len() != "html"@.len());
        assert("mp4"@.len() != "js"@.len());
        assert("mp4"@.len() != "json"@.len());
        assert("mp4"@.len() != "jpeg"@.len());
        assert("mp4"@.len() != "webp"@.len());
        assert(media_type("mp4"@) == "video/mp4"@);
    } else if i == 20 {
        assert("webm"@[0] != "html"@[0]);
        assert("webm"@[0] != "json"@[0]);
        assert("webm"@[0] != "jpeg"@[0]);
        assert("webm"@[3] != "webp"@[3]);
        assert("webm"@.len() != "htm"@.len());
        assert("webm"@.len() != "css"@.len());
        assert("webm"@.len() != "js"@.len());
        assert("webm"@.len() != "txt"@.len());
        assert("webm"@.len() != "csv"@.len());
        assert("webm"@.len() != "xml"@.len());
        assert("webm"@.len() != "jpg"@.len());
        assert("webm"@.len() != "png"@.len());
        assert("webm"@.len() != "gif"@.len());
        assert("webm"@.len() != "bmp"@.len());
        assert("webm"@.len() != "svg"@.len());
        assert("webm"@.len() != "ico"@.len());
        assert("webm"@.len() != "mp3"@.len());
        assert("webm"@.len() != "wav"@.len());
        assert("webm"@.len() != "ogg"@.len());
        assert("webm"@.len() != "mp4"@.len());
        assert(media_type("webm"@) == "video/webm"@);
    } else if i == 21 {
        assert("woff"@[0] != "html"@[0]);
        assert("woff"@[0] != "json"@[0]);
        assert("woff"@[0] != "jpeg"@[0]);
        assert("woff"@[1] != "webp"@[1]);
        assert("woff"@[1] != "webm"@[1]);
        assert("woff"@.len() != "htm"@.len());
        assert("woff"@.len() != "css"@.len());
        assert("woff"@.len() != "js"@.len());
        assert("woff"@.len() != "txt"@.len());
        assert("woff"@.len() != "csv"@.len());
        assert("woff"@.len() != "xml"@.len());
        assert("woff"@.len() != "jpg"@.len());
        assert("woff"@.len() != "png"@.len());
        assert("woff"@.len() != "gif"@.len());
        assert("woff"@.len() != "bmp"@.len());
        assert("woff"@.len() != "svg"@.len());
        assert("woff"@.len() != "ico"@.len());
        assert("woff"@.len() != "mp3"@.len());
        assert("woff"@.len() != "wav"@.len());
        assert("woff"@.len() != "ogg"@.len());
        assert("woff"@.len() != "mp4"@.len());
        assert(media_type("woff"@) == "font/woff"@);
    } else if i == 22 {
        assert("woff2"@.len() != "html"@.len());
        assert("woff2"@.len() != "htm"@.len());
        assert("woff2"@.len() != "css"@.len());
        assert("woff2"@.len() != "js"@.len());
        assert("woff2"@.len() != "json"@.len());
        assert("woff2"@.len() != "txt"@.len());
        assert("woff2"@.len() != "csv"@.len());
        assert("woff2"@.len() != "xml"@.len());
        assert("woff2"@.len() != "jpg"@.len());
        assert("woff2"@.len() != "jpeg"@.len());
        assert("woff2"@.len() != "png"@.len());
        assert("woff2"@.len() != "gif"@.len());
        assert("woff2"@.len() != "bmp"@.len());
        assert("woff2"@.len() != "webp"@.len());
        assert("woff2"@.len() != "svg"@.len());
        assert("woff2"@.len() != "ico"@.len());
        assert("woff2"@.len() != "mp3"@.len());
        assert("woff2"@.len() != "wav"@.len());
        assert("woff2"@.len() != "ogg"@.len());
        assert("woff2"@.len() != "mp4"@.len());
        assert("woff2"@.len() != "webm"@.len());
        assert("woff2"@.len() != "woff"@.len());
        assert(media_type("woff2"@) == "font/woff2"@);
    } else if i == 23 {
        assert("ttf"@[0] != "htm"@[0]);
        assert("ttf"@[0] != "css"@[0]);
        assert("ttf"@[1] != "txt"@[1]);
        assert("ttf"@[0] != "csv"@[0]);
        assert("ttf"@[0] != "xml"@[0]);
        assert("ttf"@[0] != "jpg"@[0]);
        assert("ttf"@[0] != "png"@[0]);
        assert("ttf"@[0] != "gif"@[0]);
        assert("ttf"@[0] != "bmp"@[0]);
        assert("ttf"@[0] != "svg"@[0]);
        assert("ttf"@[0] != "ico"@[0]);
        assert("ttf"@[0] != "mp3"@[0]);
        assert("ttf"@[0] != "wav"@[0]);
        assert("ttf"@[0] != "ogg"@[0]);
        assert("ttf"@[0] != "mp4"@[0]);
        assert("ttf"@.len() != "html"@.len());
        assert("ttf"@.len() != "js"@.len());
        assert("ttf"@.len() != "json"@.len());
        assert("ttf"@.len() != "jpeg"@.len());
        assert("ttf"@.len() != "webp"@.len());
        assert("ttf"@.len() != "webm"@.len());
        assert("ttf"@.len() != "woff"@.len());
        assert("ttf"@.len() != "woff2"@.len());
        assert(media_type("ttf"@) == "font/ttf"@);
    } else if i == 24 {
        assert("otf"@[0] != "htm"@[0]);
        assert("otf"@[0] != "css"@[0]);
        assert("otf"@[0] != "txt"@[0]);
        assert("otf"@[0] != "csv"@[0]);
        assert("otf"@[0] != "xml"@[0]);
        assert("otf"@[0] != "jpg"@[0]);
        assert("otf"@[0] != "png"@[0]);
        assert("otf"@[0] != "gif"@[0]);
        assert("otf"@[0] != "bmp"@[0]);
        assert("otf"@[0] != "svg"@[0]);
        assert("otf"@[0] != "ico"@[0]);
        assert("otf"@[0] != "mp3"@[0]);
        assert("otf"@[0] != "wav"@[0]);
        assert("otf"@[1] != "ogg"@[1]);
        assert("otf"@[0] != "mp4"@[0]);
        assert("otf"@[0] != "ttf"@[0]);
        assert("otf"@.len() != "html"@.len());
        assert("otf"@.len() != "js"@.len());
        assert("otf"@.len() != "json"@.len());
        assert("otf"@.len() != "jpeg"@.len());
        assert("otf"@.len() != "webp"@.len());
        assert("otf"@.len() != "webm"@.len());
        assert("otf"@.len() != "woff"@.len());
        assert("otf"@.len() != "woff2"@.len());
        assert(media_type("otf"@) == "font/otf"@);
    } else if i == 25 {
        assert("pdf"@[0] != "htm"@[0]);
        assert("pdf"@[0] != "css"@[0]);
        assert("pdf"@[0] != "txt"@[0]);
        assert("pdf"@[0] != "csv"@[0]);
        assert("pdf"@[0] != "xml"@[0]);
        assert("pdf"@[0] != "jpg"@[0]);
        assert("pdf"@[1] != "png"@[1]);
        assert("pdf"@[0] != "gif"@[0]);
        assert("pdf"@[0] != "bmp"@[0]);
        assert("pdf"@[0] != "svg"@[0]);
        assert("pdf"@[0] != "ico"@[0]);
        assert("pdf"@[0] != "mp3"@[0]);
        assert("pdf"@[0] != "wav"@[0]);
        assert("pdf"@[0] != "ogg"@[0]);
        assert("pdf"@[0] != "mp4"@[0]);
        assert("pdf"@[0] != "ttf"@[0]);
        assert("pdf"@[0] != "otf"@[0]);
        assert("pdf"@.len() != "html"@.len());
        assert("pdf"@.len() != "js"@.len());
        assert("pdf"@.len() != "json"@.len());
        assert("pdf"@.len() != "jpeg"@.len());
        assert("pdf"@.len() != "webp"@.len());
        assert("pdf"@.len() != "webm"@.len());
        assert("pdf"@.len() != "woff"@.len());
        assert("pdf"@.len() != "woff2"@.len());
        assert(media_type("pdf"@) == "application/pdf"@);
    } else if i == 26 {
        assert("zip"@[0] != "htm"@[0]);
        assert("zip"@[0] != "css"@[0]);
        assert("zip"@[0] != "txt"@[0]);
        assert("zip"@[0] != "csv"@[0]);
        assert("zip"@[0] != "xml"@[0]);
        assert("zip"@[0] != "jpg"@[0]);
        assert("zip"@[0] != "png"@[0]);
        assert("zip"@[0] != "gif"@[0]);
        assert("zip"@[0] != "bmp"@[0]);
        assert("zip"@[0] != "svg"@[0]);
        assert("zip"@[0] != "ico"@[0]);
        assert("zip"@[0] != "mp3"@[0]);
        assert("zip"@[0] != "wav"@[0]);
        assert("zip"@[0] != "ogg"@[0]);
        assert("zip"@[0] != "mp4"@[0]);
        assert("zip"@[0] != "ttf"@[0]);
        assert("zip"@[0] != "otf"@[0]);
        assert("zip"@[0] != "pdf"@[0]);
        assert("zip"@.len() != "html"@.len());
        assert("zip"@.len() != "js"@.len());
        assert("zip"@.len() != "json"@.len());
        assert("zip"@.len() != "jpeg"@.len());
        assert("zip"@.len() != "webp"@.len());
        assert("zip"@.len() != "webm"@.len());
        assert("zip"@.len() != "woff"@.len());
        assert("zip"@.len() != "woff2"@.len());
        assert(media_type("zip"@) == "application/zip"@);
    } else if i == 27 {
        assert("tar"@[0] != "htm"@[0]);
        assert("tar"@[0] != "css"@[0]);
        assert("tar"@[1] != "txt"@[1]);
        assert("tar"@[0] != "csv"@[0]);
        assert("tar"@[0] != "xml"@[0]);
        assert("tar"@[0] != "jpg"@[0]);
        assert("tar"@[0] != "png"@[0]);
        assert("tar"@[0] != "gif"@[0]);
        assert("tar"@[0] != "bmp"@[0]);
        assert("tar"@[0] != "svg"@[0]);
        assert("tar"@[0] != "ico"@[0]);
        assert("tar"@[0] != "mp3"@[0]);
        assert("tar"@[0] != "wav"@[0]);
        assert("tar"@[0] != "ogg"@[0]);
        assert("tar"@[0] != "mp4"@[0]);
        assert("tar"@[1] != "ttf"@[1]);
        assert("tar"@[0] != "otf"@[0]);
        assert("tar"@[0] != "pdf"@[0]);
        assert("tar"@[0] != "zip"@[0]);
        assert("tar"@.len() != "html"@.len());
        assert("tar"@.len() != "js"@.len());
        assert("tar"@.len() != "json"@.len());
        assert("tar"@.len() != "jpeg"@.len());
        assert("tar"@.len() != "webp"@.len());
        assert("tar"@.len() != "webm"@.len());
        assert("tar"@.len() != "woff"@.len());
        assert("tar"@.len() != "woff2"@.len());
        assert(media_type("tar"@) == "application/x-tar"@);
    } else if i == 28 {
        assert("gz"@[0] != "js"@[0]);
        assert("gz"@.len() != "html"@.len());
        assert("gz"@.len() != "htm"@.len());
        assert("gz"@.len() != "css"@.len());
        assert("gz"@.len() != "json"@.len());
        assert("gz"@.len() != "txt"@.len());
        assert("gz"@.len() != "csv"@.len());
        assert("gz"@.len() != "xml"@.len());
        assert("gz"@.len() != "jpg"@.len());
        assert("gz"@.len() != "jpeg"@.len());
        assert("gz"@.len() != "png"@.len());
        assert("gz"@.len() != "gif"@.len());
        assert("gz"@.len() != "bmp"@.len());
        assert("gz"@.len() != "webp"@.len());
        assert("gz"@.len() != "svg"@.len());
        assert("gz"@.len() != "ico"@.len());
        assert("gz"@.len() != "mp3"@.len());
        assert("gz"@.len() != "wav"@.len());
        assert("gz"@.len() != "ogg"@.len());
        assert("gz"@.len() != "mp4"@.len());
        assert("gz"@.len() != "webm"@.len());
        assert("gz"@.len() != "woff"@.len());
        assert("gz"@.len() != "woff2"@.len());
        assert("gz"@.len() != "ttf"@.len());
        assert("gz"@.len() != "otf"@.len());
        assert("gz"@.len() != "pdf"@.len());
        assert("gz"@.len() != "zip"@.len());
        assert("gz"@.len() != "tar"@.len());
        assert(media_type("gz"@) == "application/gzip"@);
    }
    assert(media_type(t[i].0) == t[i].1);
}

} // verus!
