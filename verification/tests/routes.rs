use std::io::Read;

use httpcore::handlers::{get_url_path, handle_user_agent};
use httpcore::request::parse_request;
use httpcore::response::encode_response;
use httpcore::worker::{handle_request, Step};

fn wire_of(raw: &[u8]) -> Vec<u8> {
    match handle_request(raw, false) {
        Step::Respond { response } => encode_response(&response),
        _ => panic!("expected an immediate response"),
    }
}

#[test]
fn root_is_bare_ok() {
    assert_eq!(wire_of(b"GET / HTTP/1.1\r\n\r\n"), b"HTTP/1.1 200 OK\r\n\r\n".to_vec());
}

#[test]
fn unknown_route_is_bare_not_found() {
    assert_eq!(
        wire_of(b"GET /nope HTTP/1.1\r\n\r\n"),
        b"HTTP/1.1 404 Not Found\r\n\r\n".to_vec()
    );
}

#[test]
fn user_agent_is_reflected() {
    assert_eq!(
        wire_of(b"GET /user-agent HTTP/1.1\r\nUser-Agent: foo/1.0\r\n\r\n"),
        b"HTTP/1.1 200 OK\r\nContent-Type: text/plain\r\nContent-Length: 7\r\n\r\nfoo/1.0".to_vec()
    );
}

#[test]
fn user_agent_without_header_is_empty() {
    assert_eq!(
        wire_of(b"GET /user-agent HTTP/1.1\r\n\r\n"),
        b"HTTP/1.1 200 OK\r\nContent-Type: text/plain\r\nContent-Length: 0\r\n\r\n".to_vec()
    );
}

#[test]
fn user_agent_scans_in_order_and_stops_at_blank_line() {
    assert_eq!(
        wire_of(b"GET /user-agent HTTP/1.1\r\nUser-Agent: first\r\nUser-Agent: second\r\n\r\n"),
        b"HTTP/1.1 200 OK\r\nContent-Type: text/plain\r\nContent-Length: 5\r\n\r\nfirst".to_vec()
    );
}

#[test]
fn handle_user_agent_trims_whitespace() {
    assert_eq!(
        handle_user_agent(b"  foo/1.0 \t"),
        b"HTTP/1.1 200 OK\r\nContent-Type: text/plain\r\nContent-Length: 7\r\n\r\nfoo/1.0".to_vec()
    );
}

#[test]
fn request_line_tolerates_extra_whitespace() {
    assert_eq!(
        wire_of(b"GET   /echo/a   HTTP/1.1\r\n\r\n"),
        b"HTTP/1.1 200 OK\r\nContent-Type: text/plain\r\nContent-Length: 1\r\n\r\na".to_vec()
    );
}

#[test]
fn parse_keeps_request_line_and_headers() {
    let req = parse_request(b"POST /files/b.txt HTTP/1.1\r\nHost: here\r\nContent-Length: 2\r\n\r\nxyz")
        .expect("a well-formed request parses");
    assert_eq!(req.path, b"/files/b.txt".to_vec());
    assert_eq!(req.version, b"HTTP/1.1".to_vec());
    assert_eq!(req.headers.len(), 2);
    assert_eq!(req.headers[0].name, b"Host".to_vec());
    assert_eq!(req.headers[0].value, b"here".to_vec());
    assert_eq!(req.headers[1].name, b"Content-Length".to_vec());
    assert_eq!(req.headers[1].value, b"2".to_vec());
    assert_eq!(req.body, b"xy".to_vec());
}

#[test]
fn get_url_path_plain_embeds_body() {
    let tokens: Vec<Vec<u8>> = vec![b"".to_vec(), b"".to_vec()];
    let (head, body) = get_url_path(b"GET /echo/abc HTTP/1.1", &tokens);
    assert_eq!(
        head,
        b"HTTP/1.1 200 OK\r\nContent-Type: text/plain\r\nContent-Length: 3\r\n\r\nabc".to_vec()
    );
    assert!(body.is_empty());
}

#[test]
fn get_url_path_gzip_separates_body() {
    let tokens: Vec<Vec<u8>> = vec![b"Accept-Encoding:".to_vec(), b"gzip".to_vec()];
    let (head, body) = get_url_path(b"GET /echo/abc HTTP/1.1", &tokens);
    let expected_head = format!(
        "HTTP/1.1 200 OK\r\nContent-Encoding: gzip\r\nContent-Length: {}\r\n\r\n",
        body.len()
    );
    assert_eq!(head, expected_head.into_bytes());
    let mut decoder = flate2::read::GzDecoder::new(body.as_slice());
    let mut out = Vec::new();
    decoder.read_to_end(&mut out).expect("gzip body must decompress");
    assert_eq!(out, b"abc".to_vec());
}

#[test]
fn header_values_are_trimmed_as_received() {
    assert_eq!(
        wire_of(b"GET /user-agent HTTP/1.1\r\nUser-Agent:    spaced  \r\n\r\n"),
        b"HTTP/1.1 200 OK\r\nContent-Type: text/plain\r\nContent-Length: 6\r\n\r\nspaced".to_vec()
    );
}
