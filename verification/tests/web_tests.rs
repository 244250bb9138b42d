use phm::str_map::StrMap;
use phm::web::file_body::FileMetaExtension;
use phm::web::http_code::HttpCode;
use phm::web::http_request::{
    BodyFraming, ChunkAction, HttpParseError, HttpParserV1, HttpRequestMeta, Parsers, VariableError,
    Variables,
};
use phm::web::request_error::{IoFailure, io_failure_status};
use phm::web::response::{file_extension, get_file_type_header};
use phm::web::{Middleware, Response, Step, after_middleware, first_step, parse_failure_response};
use phm::HttpMethod;

#[test]
fn http_code_numbers_and_reasons() {
    assert_eq!(HttpCode::OK.as_status_code(), 200);
    assert_eq!(HttpCode::OK.as_status(), "OK");
    assert_eq!(HttpCode::NotFound.as_status_code(), 404);
    assert_eq!(HttpCode::NotFound.as_status(), "Not Found");
    assert_eq!(HttpCode::from(201), HttpCode::Created);
    assert_eq!(HttpCode::from(299), HttpCode::Other(299));
    assert_eq!(HttpCode::Other(299).as_status_code(), 299);
    assert_eq!(HttpCode::Other(299).as_status(), "Unknown 299");
    assert_eq!(u32::from(HttpCode::TooManyRequests), 429);
    assert_eq!(HttpCode::default(), HttpCode::OK);
}

#[test]
fn http_code_round_trips_through_numbers() {
    for n in [100u32, 101, 200, 204, 301, 304, 400, 401, 403, 404, 418, 429, 500, 503, 511] {
        assert_eq!(HttpCode::from(n).as_status_code(), n);
        assert_ne!(HttpCode::from(n), HttpCode::Other(n));
    }
    assert_eq!(HttpCode::from(HttpCode::ImATeapot.as_status_code()), HttpCode::ImATeapot);
}

#[test]
fn http_method_from_trims_and_upper_cases() {
    assert!(matches!(HttpMethod::from(" get "), HttpMethod::GET));
    assert!(matches!(HttpMethod::from("Post"), HttpMethod::POST));
    assert!(matches!(HttpMethod::from("patch\r\n"), HttpMethod::PATCH));
    match HttpMethod::from(" brew ") {
        HttpMethod::Unknown(name) => assert_eq!(name, "BREW"),
        _ => panic!("expected an unknown method"),
    }
    assert!(HttpMethod::GET.same(&HttpMethod::from("GET")));
    assert!(!HttpMethod::GET.same(&HttpMethod::POST));
    assert!(HttpMethod::from("x").same(&HttpMethod::Unknown("X".to_string())));
}

#[test]
fn response_serialises_head_and_body() {
    let mut res = Response::new(&Parsers::HttpV1);
    res.status(HttpCode::NotFound).text("hi");
    assert_eq!(res.get_header(&"Content-Type".to_string()).map(|s| s.as_str()), Some("text/plain"));
    assert_eq!(res.get_header(&"Content-Length".to_string()).map(|s| s.as_str()), Some("2"));
    let bytes = res.into_bytes();
    assert_eq!(
        bytes,
        b"HTTP/1.1 404 Not Found\r\nContent-Type: text/plain\r\nContent-Length: 2\r\n\r\nhi".to_vec()
    );
}

#[test]
fn response_without_body_ends_after_the_head() {
    let res = Response::new(&Parsers::HttpV1);
    assert_eq!(res.into_bytes(), b"HTTP/1.1 200 OK\r\n\r\n".to_vec());

    let mut res = Response::new(&Parsers::HttpV1);
    res.set_body(vec![1, 2, 3]).no_body();
    assert_eq!(res.into_bytes(), b"HTTP/1.1 200 OK\r\nContent-Length: 3\r\n\r\n".to_vec());
}

#[test]
fn setting_a_header_again_moves_it_last() {
    let mut res = Response::new(&Parsers::HttpV1);
    res.set_header("A", "1").set_header("B", "2").set_header("A", "3");
    let order: Vec<(String, String)> =
        res.headers().iter().map(|(k, v)| (k.clone(), v.clone())).collect();
    assert_eq!(
        order,
        vec![("B".to_string(), "2".to_string()), ("A".to_string(), "3".to_string())]
    );
    assert_eq!(res.get_header(&"A".to_string()).map(|s| s.as_str()), Some("3"));
    assert_eq!(res.get_header(&"C".to_string()), None);
    assert_eq!(res.into_bytes(), b"HTTP/1.1 200 OK\r\nB: 2\r\nA: 3\r\n\r\n".to_vec());
}

#[test]
fn body_length_is_written_in_decimal() {
    let mut res = Response::new(&Parsers::HttpV1);
    res.set_body(vec![0u8; 1234]);
    assert_eq!(res.get_header(&"Content-Length".to_string()).map(|s| s.as_str()), Some("1234"));
}

#[test]
fn file_type_header_by_extension() {
    assert_eq!(get_file_type_header("index.HTML"), "text/html");
    assert_eq!(get_file_type_header("./static/app.js"), "application/javascript");
    assert_eq!(get_file_type_header("photo.jpeg"), "image/jpeg");
    assert_eq!(get_file_type_header("archive.tar.gz"), "application/gzip");
    assert_eq!(get_file_type_header("font.woff2"), "font/woff2");
    assert_eq!(get_file_type_header("README"), "application/octet-stream");
    assert_eq!(get_file_type_header(".bashrc"), "application/octet-stream");
    assert_eq!(get_file_type_header("data.unknown"), "application/octet-stream");
    assert_eq!(file_extension("dir.d/file"), None);
    assert_eq!(file_extension("a/b.Txt"), Some("Txt".to_string()));
}

#[test]
fn middleware_chain_steps() {
    assert_eq!(first_step(false, 2), Step::Respond);
    assert_eq!(first_step(true, 2), Step::RunMiddleware(0));
    assert_eq!(first_step(true, 0), Step::RunHandler);
    assert_eq!(after_middleware(0, 2, Middleware::Next), Step::RunMiddleware(1));
    assert_eq!(after_middleware(1, 2, Middleware::Next), Step::RunHandler);
    assert_eq!(after_middleware(0, 2, Middleware::Stop), Step::Respond);
}

#[test]
fn unreadable_request_is_answered_404() {
    let res = parse_failure_response(&Parsers::HttpV1);
    assert_eq!(res.into_bytes(), b"HTTP/1.1 404 Not Found\r\nContent-Length: 0\r\n\r\n".to_vec());
}

#[test]
fn request_line_gives_route_and_method() {
    let (route, method) = HttpParserV1::parse_route_meta("get /api/user?x=1 HTTP/1.1\r\n").unwrap();
    assert_eq!(route, "/api/user?x=1");
    assert!(matches!(method, HttpMethod::GET));

    let (route, method) = HttpParserV1::parse_route_meta("BREW /pot HTTP/1.1").unwrap();
    assert_eq!(route, "/pot");
    assert!(matches!(method, HttpMethod::Unknown(ref n) if n == "BREW"));

    assert!(matches!(
        HttpParserV1::parse_route_meta("GET"),
        Err(HttpParseError::MissingRequiredMeta)
    ));
}

#[test]
fn header_lines_are_lower_cased() {
    let h = HttpParserV1::parse_header_line("Content-Type: Text/HTML\r\n").unwrap();
    assert_eq!(h, Some(("content-type".to_string(), " text/html".to_string())));
    assert_eq!(HttpParserV1::parse_header_line("\r\n").unwrap(), None);
    assert!(matches!(
        HttpParserV1::parse_header_line("no colon here"),
        Err(HttpParseError::InvalidHeader)
    ));

    let mut headers = StrMap::new();
    assert!(HttpParserV1::add_header_line(&mut headers, "Host: Example").unwrap());
    assert!(!HttpParserV1::add_header_line(&mut headers, "   ").unwrap());
    assert!(HttpParserV1::add_header_line(&mut headers, "bad").is_err());
    assert_eq!(headers.len(), 1);
    assert_eq!(headers.get("host").map(|s| s.as_str()), Some(" example"));
}

#[test]
fn body_framing_from_headers() {
    let mut headers = StrMap::new();
    assert_eq!(HttpParserV1::body_framing(&headers).unwrap(), BodyFraming::Empty);

    headers.insert("transfer-encoding".to_string(), "chunked".to_string());
    assert_eq!(HttpParserV1::body_framing(&headers).unwrap(), BodyFraming::Chunked);

    let mut gz = StrMap::new();
    gz.insert("transfer-encoding".to_string(), "gzip".to_string());
    match HttpParserV1::body_framing(&gz) {
        Err(HttpParseError::UnsupportedBody(t)) => assert_eq!(t, "gzip"),
        other => panic!("unexpected {:?}", other),
    }

    headers.insert("content-length".to_string(), "12".to_string());
    assert_eq!(HttpParserV1::body_framing(&headers).unwrap(), BodyFraming::Fixed(12));

    let mut bad = StrMap::new();
    bad.insert("content-length".to_string(), "twelve".to_string());
    assert!(matches!(
        HttpParserV1::body_framing(&bad),
        Err(HttpParseError::InvalidContentLength)
    ));
}

#[test]
fn chunk_sizes_are_hexadecimal() {
    assert_eq!(HttpParserV1::chunk_action("15\r\n").unwrap(), ChunkAction::Read(0x15));
    assert_eq!(HttpParserV1::chunk_action("1f").unwrap(), ChunkAction::Read(31));
    assert_eq!(HttpParserV1::chunk_action("A\n").unwrap(), ChunkAction::Read(10));
    assert_eq!(HttpParserV1::chunk_action("0\r\n").unwrap(), ChunkAction::Finish);
    assert!(matches!(HttpParserV1::chunk_action(""), Err(HttpParseError::InvalidBufferSize)));
    assert!(matches!(HttpParserV1::chunk_action("\r\n"), Err(HttpParseError::InvalidBufferSize)));
    assert!(matches!(HttpParserV1::chunk_action("1g\r\n"), Err(HttpParseError::InvalidBufferSize)));
    assert!(matches!(
        HttpParserV1::chunk_action("fffffffffffffffffffff\r\n"),
        Err(HttpParseError::InvalidBufferSize)
    ));
    assert!(!HttpParserV1::reads_body(&HttpMethod::GET));
    assert!(HttpParserV1::reads_body(&HttpMethod::POST));
}

#[test]
fn chunks_are_appended_without_their_line_ending() {
    let mut data = Vec::new();
    HttpParserV1::append_chunk(&mut data, b"hello\r\n", 5).unwrap();
    HttpParserV1::append_chunk(&mut data, b" world\r\n", 6).unwrap();
    assert_eq!(data, b"hello world".to_vec());
    assert!(matches!(
        HttpParserV1::append_chunk(&mut data, b"abc\r\n", 2),
        Err(HttpParseError::InvalidBufferSize)
    ));
    assert!(matches!(
        HttpParserV1::append_chunk(&mut data, b"abcxx", 3),
        Err(HttpParseError::InvalidBufferSize)
    ));
    assert_eq!(data, b"hello world".to_vec());
}

#[test]
fn content_length_with_a_space_is_read() {
    let mut headers = StrMap::new();
    assert!(HttpParserV1::add_header_line(&mut headers, "Content-Length: 5\r\n").unwrap());
    assert_eq!(headers.get("content-length").map(|s| s.as_str()), Some(" 5"));
    assert_eq!(HttpParserV1::body_framing(&headers).unwrap(), BodyFraming::Fixed(5));

    let mut chunked = StrMap::new();
    assert!(HttpParserV1::add_header_line(&mut chunked, "Transfer-Encoding: Chunked\r\n").unwrap());
    assert_eq!(HttpParserV1::body_framing(&chunked).unwrap(), BodyFraming::Chunked);
}

#[test]
fn file_body_sets_type_length_and_data() {
    let mut res = Response::new(&Parsers::HttpV1);
    res.file_body("./static/Logo.PNG", vec![1, 2, 3]);
    assert_eq!(
        res.into_bytes(),
        b"HTTP/1.1 200 OK\r\nContent-Type: image/png\r\nContent-Length: 3\r\n\r\n\x01\x02\x03".to_vec()
    );
}

#[test]
fn request_meta_splits_route_at_last_question_mark() {
    let meta = HttpRequestMeta::new(
        "/api/user?name=Shawn".to_string(),
        HttpMethod::GET,
        StrMap::new(),
        vec![1, 2],
    );
    assert_eq!(meta.clean_route(), "/api/user");
    assert_eq!(meta.route_params(), Some("name=Shawn"));
    assert_eq!(meta.full_route(), "/api/user?name=Shawn");
    assert_eq!(meta.body(), vec![1, 2]);
    assert_eq!(meta.body_ref(), &vec![1, 2]);
    assert!(matches!(meta.method(), HttpMethod::GET));

    let plain = HttpRequestMeta::new("/a".to_string(), HttpMethod::POST, StrMap::new(), vec![]);
    assert_eq!(plain.clean_route(), "/a");
    assert_eq!(plain.route_params(), None);

    let twice = HttpRequestMeta::new("/a?b?c".to_string(), HttpMethod::POST, StrMap::new(), vec![]);
    assert_eq!(twice.clean_route(), "/a?b");
    assert_eq!(twice.route_params(), Some("c"));
}

#[test]
fn multipart_body_gives_its_file() {
    let mut headers = StrMap::new();
    headers.insert("content-type".to_string(), "multipart/form-data; boundary=xyz".to_string());
    let body = b"--xyz\r\nContent-Disposition: form-data; name=\"f\"; filename=\"a.txt\"\r\nContent-Type: text/plain\r\n\r\nhello\r\n--xyz--\r\n".to_vec();
    let meta = HttpRequestMeta::new("/upload".to_string(), HttpMethod::POST, headers, body);
    let files = meta.as_files();
    assert_eq!(files.len(), 1);
    assert_eq!(files[0].name(), "a.txt");
    assert_eq!(files[0].content_type(), "text/plain");
    assert_eq!(files[0].file_data(), &b"hello".to_vec());
}

#[test]
fn multipart_body_gives_each_file() {
    let mut headers = StrMap::new();
    headers.insert("content-type".to_string(), "multipart/form-data; boundary=B".to_string());
    let body = b"--B\r\nContent-Disposition: form-data; filename=a.txt\r\nContent-Type: text/plain\r\n\r\nhello\r\n--B\r\nContent-Disposition: form-data; filename=b.txt\r\nContent-Type: text/plain\r\n\r\nworld\r\n--B--\r\n".to_vec();
    let meta = HttpRequestMeta::new("/up".to_string(), HttpMethod::POST, headers, body);
    let files = meta.as_files();
    assert_eq!(files.len(), 2);
    assert_eq!(files[0].name(), "a.txt");
    assert_eq!(files[0].file_data(), &b"hello".to_vec());
    assert_eq!(files[1].name(), "b.txt");
    assert_eq!(files[1].content_type(), "text/plain");
    assert_eq!(files[1].file_data(), &b"world".to_vec());
}

#[test]
fn multipart_without_boundary_or_filename_gives_nothing() {
    let meta = HttpRequestMeta::new("/u".to_string(), HttpMethod::POST, StrMap::new(), b"--x\r\n".to_vec());
    assert_eq!(meta.as_files().len(), 0);

    let mut headers = StrMap::new();
    headers.insert("content-type".to_string(), "multipart/form-data; boundary=xyz".to_string());
    let body = b"--xyz\r\nContent-Disposition: form-data; name=\"f\"\r\nContent-Type: text/plain\r\n\r\nhello\r\n--xyz--\r\n".to_vec();
    let meta = HttpRequestMeta::new("/u".to_string(), HttpMethod::POST, headers, body);
    assert_eq!(meta.as_files().len(), 0);

    let mut headers = StrMap::new();
    headers.insert("content-type".to_string(), "multipart/form-data; boundary=xyz".to_string());
    let body = b"--abc\r\nContent-Disposition: form-data; filename=a\r\n".to_vec();
    let meta = HttpRequestMeta::new("/u".to_string(), HttpMethod::POST, headers, body);
    assert_eq!(meta.as_files().len(), 0);
}

#[test]
fn variables_hold_route_values_and_trace() {
    let mut route = StrMap::new();
    route.insert("user_id".to_string(), "42".to_string());
    let mut vars: Variables<u64> = Variables::new(route);
    assert_eq!(vars.get_route_variable("user_id").unwrap(), "42");
    assert!(matches!(vars.get_route_variable("other"), Err(VariableError::Missing)));
    assert!(matches!(vars.get_variable("count"), Err(VariableError::Missing)));
    assert_eq!(vars.set_variable("count".to_string(), 1), None);
    assert_eq!(vars.set_variable("count".to_string(), 2), Some(1));
    assert_eq!(*vars.get_variable("count").unwrap(), 2);
    assert!(matches!(vars.get_route_variable("count"), Err(VariableError::Missing)));
}

#[test]
fn variable_errors_answer_with_status_and_message() {
    assert_eq!(VariableError::Missing.http_code(), HttpCode::NotFound);
    assert_eq!(VariableError::Missing.message(), "variable does not exist");
    let e = VariableError::CannotConvert("abc".to_string(), "u32".to_string());
    assert_eq!(e.http_code(), HttpCode::InternalServerError);
    assert_eq!(e.message(), "could not convert 'abc' to u32");
}

#[test]
fn io_failures_map_to_statuses() {
    assert_eq!(io_failure_status(IoFailure::NotFound), HttpCode::NotFound);
    assert_eq!(io_failure_status(IoFailure::PermissionDenied), HttpCode::Unauthorized);
    assert_eq!(io_failure_status(IoFailure::QuotaExceeded), HttpCode::TooManyRequests);
    assert_eq!(io_failure_status(IoFailure::Other), HttpCode::InternalServerError);
}

#[test]
fn parse_errors_convert_from_sources() {
    let e: HttpParseError = std::io::Error::from(std::io::ErrorKind::UnexpectedEof).into();
    assert!(matches!(e, HttpParseError::IO(_)));
    let e: HttpParseError = phm::RouterError::NotFound.into();
    assert!(matches!(e, HttpParseError::RouterEncounteredError(phm::RouterError::NotFound)));
}
