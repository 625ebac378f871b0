//! Request-line and header parsing behavior.

use apex::headers::{parse_header_line, parse_headers, HeaderMap};
use apex::request::{parse_request_line, HttpVersion, RequestError};

fn line(s: &str) -> Vec<u8> {
    s.as_bytes().to_vec()
}

#[test]
fn request_line_get_v11() {
    let r = parse_request_line(&line("GET /index.html HTTP/1.1")).unwrap();
    assert_eq!(r.version, HttpVersion::V11);
    assert_eq!(r.path, b"/index.html".to_vec());
}

#[test]
fn request_line_get_v10() {
    let r = parse_request_line(&line("GET / HTTP/1.0")).unwrap();
    assert_eq!(r.version, HttpVersion::V10);
    assert_eq!(r.path, b"/".to_vec());
}

#[test]
fn request_line_empty_path() {
    let r = parse_request_line(&line("GET  HTTP/1.1")).unwrap();
    assert_eq!(r.version, HttpVersion::V11);
    assert_eq!(r.path, Vec::<u8>::new());
}

#[test]
fn request_line_other_method_refused() {
    assert_eq!(
        parse_request_line(&line("POST / HTTP/1.1")).unwrap_err(),
        RequestError::MethodNotSupported
    );
    assert_eq!(
        parse_request_line(&line("get / HTTP/1.1")).unwrap_err(),
        RequestError::MethodNotSupported
    );
    assert_eq!(parse_request_line(&line("")).unwrap_err(), RequestError::MethodNotSupported);
}

#[test]
fn request_line_other_version_refused() {
    assert_eq!(
        parse_request_line(&line("GET / HTTP/2.0")).unwrap_err(),
        RequestError::UnsupportedVersion
    );
    assert_eq!(
        parse_request_line(&line("GET /")).unwrap_err(),
        RequestError::UnsupportedVersion
    );
    // The version suffix may not overlap the method prefix.
    assert_eq!(
        parse_request_line(&line("GET HTTP/1.1")).unwrap_err(),
        RequestError::UnsupportedVersion
    );
}

#[test]
fn header_line_name_lowercased() {
    let (name, value) = parse_header_line(&line("Content-TYPE: text/html")).unwrap();
    assert_eq!(name, b"content-type".to_vec());
    assert_eq!(value, b"text/html".to_vec());
}

#[test]
fn header_line_strips_at_most_one_space() {
    let (_, value) = parse_header_line(&line("X-Head:value")).unwrap();
    assert_eq!(value, b"value".to_vec());
    let (_, value) = parse_header_line(&line("X-Head: value")).unwrap();
    assert_eq!(value, b"value".to_vec());
    let (_, value) = parse_header_line(&line("X-Head:   value")).unwrap();
    assert_eq!(value, b"  value".to_vec());
}

#[test]
fn header_line_value_after_first_colon() {
    let (name, value) = parse_header_line(&line("Host: a.test:8080")).unwrap();
    assert_eq!(name, b"host".to_vec());
    assert_eq!(value, b"a.test:8080".to_vec());
}

#[test]
fn header_line_without_colon_refused() {
    assert_eq!(
        parse_header_line(&line("no colon here")).unwrap_err(),
        RequestError::MalformedHeaderLine
    );
}

#[test]
fn header_line_trailing_colon_empty_value() {
    let (name, value) = parse_header_line(&line("X-Empty:")).unwrap();
    assert_eq!(name, b"x-empty".to_vec());
    assert_eq!(value, Vec::<u8>::new());
}

#[test]
fn headers_stop_at_blank_line() {
    let lines = vec![
        line("GET / HTTP/1.1"),
        line("Host: a.test"),
        line(""),
        line("not a header at all"),
    ];
    let m = parse_headers(&lines).unwrap();
    assert_eq!(m.get(&b"host".to_vec()), Some(&b"a.test".to_vec()));
}

#[test]
fn headers_last_duplicate_wins() {
    let lines = vec![
        line("GET / HTTP/1.1"),
        line("X-N: first"),
        line("x-n: second"),
        line(""),
    ];
    let m = parse_headers(&lines).unwrap();
    assert_eq!(m.get(&b"x-n".to_vec()), Some(&b"second".to_vec()));
}

#[test]
fn headers_truncated_stream_refused() {
    let lines = vec![line("GET / HTTP/1.1"), line("Host: a.test")];
    assert_eq!(parse_headers(&lines).unwrap_err(), RequestError::TruncatedRequest);
}

#[test]
fn headers_malformed_line_refused() {
    let lines = vec![line("GET / HTTP/1.1"), line("bogus"), line("")];
    assert_eq!(parse_headers(&lines).unwrap_err(), RequestError::MalformedHeaderLine);
    // The malformed line is refused even when no blank line follows.
    let lines = vec![line("GET / HTTP/1.1"), line("bogus")];
    assert_eq!(parse_headers(&lines).unwrap_err(), RequestError::MalformedHeaderLine);
}

#[test]
fn header_map_insert_and_get() {
    let mut m = HeaderMap::new();
    assert_eq!(m.get(&b"host".to_vec()), None);
    m.insert(b"host".to_vec(), b"a.test".to_vec());
    m.insert(b"host".to_vec(), b"b.test".to_vec());
    assert_eq!(m.get(&b"host".to_vec()), Some(&b"b.test".to_vec()));
    assert_eq!(m.get(&b"other".to_vec()), None);
}
