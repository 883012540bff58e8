use std::io::Read;

use httpcore::response::{encode_response, Response, Status};
use httpcore::worker::{finish_file_read, finish_file_write, handle_request, Step};

fn respond(raw: &[u8], storage_configured: bool) -> Response {
    match handle_request(raw, storage_configured) {
        Step::Respond { response } => response,
        _ => panic!("expected an immediate response"),
    }
}

fn header_value(resp: &Response, name: &[u8]) -> Option<Vec<u8>> {
    for h in resp.headers.iter() {
        if h.name == name {
            return Some(h.value.clone());
        }
    }
    None
}

fn gunzip(data: &[u8]) -> Vec<u8> {
    let mut decoder = flate2::read::GzDecoder::new(data);
    let mut out = Vec::new();
    decoder.read_to_end(&mut out).expect("gzip body must decompress");
    out
}

#[test]
fn echo_plain_exact_bytes() {
    let resp = respond(b"GET /echo/abc HTTP/1.1\r\n\r\n", false);
    let wire = encode_response(&resp);
    assert_eq!(
        wire,
        b"HTTP/1.1 200 OK\r\nContent-Type: text/plain\r\nContent-Length: 3\r\n\r\nabc".to_vec()
    );
}

#[test]
fn echo_empty_value() {
    let resp = respond(b"GET /echo/ HTTP/1.1\r\n\r\n", false);
    let wire = encode_response(&resp);
    assert_eq!(
        wire,
        b"HTTP/1.1 200 OK\r\nContent-Type: text/plain\r\nContent-Length: 0\r\n\r\n".to_vec()
    );
}

#[test]
fn echo_gzip_round_trip() {
    let resp = respond(
        b"GET /echo/abc HTTP/1.1\r\nAccept-Encoding: gzip\r\n\r\n",
        false,
    );
    assert!(matches!(resp.status, Status::Okay));
    assert_eq!(header_value(&resp, b"Content-Encoding"), Some(b"gzip".to_vec()));
    let body = resp.body.clone().expect("a gzip echo has a body");
    assert_eq!(
        header_value(&resp, b"Content-Length"),
        Some(body.len().to_string().into_bytes())
    );
    assert_eq!(gunzip(&body), b"abc".to_vec());
}

#[test]
fn echo_gzip_token_among_others() {
    let resp = respond(
        b"GET /echo/hey HTTP/1.1\r\nAccept-Encoding: deflate, gzip\r\n\r\n",
        false,
    );
    assert_eq!(header_value(&resp, b"Content-Encoding"), Some(b"gzip".to_vec()));
    let body = resp.body.clone().expect("a gzip echo has a body");
    assert_eq!(gunzip(&body), b"hey".to_vec());
}

#[test]
fn echo_connections_do_not_cross_contaminate() {
    let first = respond(b"GET /echo/x HTTP/1.1\r\n\r\n", false);
    let second = respond(b"GET /echo/y HTTP/1.1\r\n\r\n", false);
    assert_eq!(first.body, Some(b"x".to_vec()));
    assert_eq!(second.body, Some(b"y".to_vec()));
    let again = respond(b"GET /echo/x HTTP/1.1\r\n\r\n", false);
    assert_eq!(again.body, Some(b"x".to_vec()));
}

#[test]
fn file_write_then_read_round_trip() {
    let step = handle_request(
        b"POST /files/a.txt HTTP/1.1\r\nContent-Length: 5\r\n\r\nhello",
        true,
    );
    let (filename, data) = match step {
        Step::WriteFile { filename, data } => (filename, data),
        _ => panic!("a POST under the file prefix asks for a write"),
    };
    assert_eq!(filename, b"a.txt".to_vec());
    assert_eq!(data, b"hello".to_vec());
    let created = encode_response(&finish_file_write(true));
    assert_eq!(created, b"HTTP/1.1 201 Created\r\n\r\n".to_vec());

    let step = handle_request(b"GET /files/a.txt HTTP/1.1\r\n\r\n", true);
    match step {
        Step::ReadFile { filename } => assert_eq!(filename, b"a.txt".to_vec()),
        _ => panic!("a GET under the file prefix asks for a read"),
    }
    let wire = encode_response(&finish_file_read(Some(data)));
    assert_eq!(
        wire,
        b"HTTP/1.1 200 OK\r\nContent-Type: application/octet-stream\r\nContent-Length: 5\r\n\r\nhello"
            .to_vec()
    );
}

#[test]
fn file_write_truncates_to_declared_length() {
    let step = handle_request(
        b"POST /files/a.txt HTTP/1.1\r\nContent-Length: 3\r\n\r\nhello",
        true,
    );
    match step {
        Step::WriteFile { filename, data } => {
            assert_eq!(filename, b"a.txt".to_vec());
            assert_eq!(data, b"hel".to_vec());
        },
        _ => panic!("a POST under the file prefix asks for a write"),
    }
}

#[test]
fn file_missing_is_bare_not_found() {
    let wire = encode_response(&finish_file_read(None));
    assert_eq!(wire, b"HTTP/1.1 404 Not Found\r\n\r\n".to_vec());
}

#[test]
fn file_with_invalid_utf8_is_not_found() {
    let resp = finish_file_read(Some(vec![0xff, 0xfe, 0xfd]));
    assert!(matches!(resp.status, Status::NotFound));
    assert!(resp.body.is_none());
    let ok = finish_file_read(Some(b"ok".to_vec()));
    assert!(matches!(ok.status, Status::Okay));
}

#[test]
fn file_write_failure_is_not_found() {
    let wire = encode_response(&finish_file_write(false));
    assert_eq!(wire, b"HTTP/1.1 404 Not Found\r\n\r\n".to_vec());
}

#[test]
fn file_write_without_storage_root_is_internal_error() {
    let resp = respond(
        b"POST /files/a.txt HTTP/1.1\r\nContent-Length: 5\r\n\r\nhello",
        false,
    );
    let wire = encode_response(&resp);
    assert_eq!(wire, b"HTTP/1.1 500 Internal Server Error\r\n\r\n".to_vec());
}

#[test]
fn file_write_without_filename_is_bad_request() {
    let resp = respond(b"POST /files/ HTTP/1.1\r\nContent-Length: 5\r\n\r\nhello", true);
    let wire = encode_response(&resp);
    assert_eq!(wire, b"HTTP/1.1 400 Bad Request\r\n\r\n".to_vec());
}

#[test]
fn post_without_content_length_is_bad_request() {
    let resp = respond(b"POST /files/a.txt HTTP/1.1\r\n\r\nhello", true);
    let wire = encode_response(&resp);
    assert_eq!(wire, b"HTTP/1.1 400 Bad Request\r\n\r\n".to_vec());
}

#[test]
fn empty_read_closes_silently() {
    assert!(matches!(handle_request(b"", true), Step::CloseSilently));
}

#[test]
fn truncated_request_line_is_bad_request() {
    let resp = respond(b"GET\r\n\r\n", false);
    let wire = encode_response(&resp);
    assert_eq!(wire, b"HTTP/1.1 400 Bad Request\r\n\r\n".to_vec());
}

#[test]
fn completeness_waits_for_header_block() {
    assert!(!httpcore::worker::request_complete(b"GET /echo/abc HTTP/1.1\r\n"));
    assert!(httpcore::worker::request_complete(b"GET /echo/abc HTTP/1.1\r\n\r\n"));
}

#[test]
fn completeness_waits_for_declared_body() {
    assert!(!httpcore::worker::request_complete(
        b"POST /files/a.txt HTTP/1.1\r\nContent-Length: 5\r\n\r\nhel"
    ));
    assert!(httpcore::worker::request_complete(
        b"POST /files/a.txt HTTP/1.1\r\nContent-Length: 5\r\n\r\nhello"
    ));
}
