//! The byte constants of the wire protocol: tokens of the request line, the
//! route paths, header names and values, and the fixed status lines.
use vstd::prelude::*;

verus! {

use crate::text::ascii_seq;
use crate::text::ascii_bytes;

/// The line terminator of the wire protocol.
pub open spec fn crlf() -> Seq<u8> {
    ascii_seq("\r\n"@)
}

/// The bytes of [`crlf`].
pub fn crlf_bytes() -> (r: Vec<u8>)
    ensures
        r@ == crlf(),
{
    proof {
        reveal_strlit("\r\n");
        assert(vstd::string::is_ascii("\r\n"));
    }
    ascii_bytes("\r\n")
}

/// The blank line that ends a request's header block.
pub open spec fn head_end() -> Seq<u8> {
    ascii_seq("\r\n\r\n"@)
}

/// The bytes of [`head_end`].
pub fn head_end_bytes() -> (r: Vec<u8>)
    ensures
        r@ == head_end(),
{
    proof {
        reveal_strlit("\r\n\r\n");
        assert(vstd::string::is_ascii("\r\n\r\n"));
    }
    ascii_bytes("\r\n\r\n")
}

/// The separator between a header name and its value on the wire.
pub open spec fn header_sep() -> Seq<u8> {
    ascii_seq(": "@)
}

/// The bytes of [`header_sep`].
pub fn header_sep_bytes() -> (r: Vec<u8>)
    ensures
        r@ == header_sep(),
{
    proof {
        reveal_strlit(": ");
        assert(vstd::string::is_ascii(": "));
    }
    ascii_bytes(": ")
}

/// The byte that separates a header name from its value as received.
pub open spec fn colon() -> Seq<u8> {
    ascii_seq(":"@)
}

/// The bytes of [`colon`].
pub fn colon_bytes() -> (r: Vec<u8>)
    ensures
        r@ == colon(),
{
    proof {
        reveal_strlit(":");
        assert(vstd::string::is_ascii(":"));
    }
    ascii_bytes(":")
}

/// The request-line token of the GET method.
pub open spec fn tok_get() -> Seq<u8> {
    ascii_seq("GET"@)
}

/// The bytes of [`tok_get`].
pub fn tok_get_bytes() -> (r: Vec<u8>)
    ensures
        r@ == tok_get(),
{
    proof {
        reveal_strlit("GET");
        assert(vstd::string::is_ascii("GET"));
    }
    ascii_bytes("GET")
}

/// The request-line token of the POST method.
pub open spec fn tok_post() -> Seq<u8> {
    ascii_seq("POST"@)
}

/// The bytes of [`tok_post`].
pub fn tok_post_bytes() -> (r: Vec<u8>)
    ensures
        r@ == tok_post(),
{
    proof {
        reveal_strlit("POST");
        assert(vstd::string::is_ascii("POST"));
    }
    ascii_bytes("POST")
}

/// The path of the bare root route.
pub open spec fn root_path() -> Seq<u8> {
    ascii_seq("/"@)
}

/// The bytes of [`root_path`].
pub fn root_path_bytes() -> (r: Vec<u8>)
    ensures
        r@ == root_path(),
{
    proof {
        reveal_strlit("/");
        assert(vstd::string::is_ascii("/"));
    }
    ascii_bytes("/")
}

/// The path prefix of the echo route.
pub open spec fn echo_prefix() -> Seq<u8> {
    ascii_seq("/echo/"@)
}

/// The bytes of [`echo_prefix`].
pub fn echo_prefix_bytes() -> (r: Vec<u8>)
    ensures
        r@ == echo_prefix(),
{
    proof {
        reveal_strlit("/echo/");
        assert(vstd::string::is_ascii("/echo/"));
    }
    ascii_bytes("/echo/")
}

/// The path of the user-agent route.
pub open spec fn user_agent_path() -> Seq<u8> {
    ascii_seq("/user-agent"@)
}

/// The bytes of [`user_agent_path`].
pub fn user_agent_path_bytes() -> (r: Vec<u8>)
    ensures
        r@ == user_agent_path(),
{
    proof {
        reveal_strlit("/user-agent");
        assert(vstd::string::is_ascii("/user-agent"));
    }
    ascii_bytes("/user-agent")
}

/// The path prefix of the file routes.
pub open spec fn files_prefix() -> Seq<u8> {
    ascii_seq("/files/"@)
}

/// The bytes of [`files_prefix`].
pub fn files_prefix_bytes() -> (r: Vec<u8>)
    ensures
        r@ == files_prefix(),
{
    proof {
        reveal_strlit("/files/");
        assert(vstd::string::is_ascii("/files/"));
    }
    ascii_bytes("/files/")
}

/// The Content-Length header name.
pub open spec fn h_content_length() -> Seq<u8> {
    ascii_seq("Content-Length"@)
}

/// The bytes of [`h_content_length`].
pub fn h_content_length_bytes() -> (r: Vec<u8>)
    ensures
        r@ == h_content_length(),
{
    proof {
        reveal_strlit("Content-Length");
        assert(vstd::string::is_ascii("Content-Length"));
    }
    ascii_bytes("Content-Length")
}

/// The Content-Type header name.
pub open spec fn h_content_type() -> Seq<u8> {
    ascii_seq("Content-Type"@)
}

/// The bytes of [`h_content_type`].
pub fn h_content_type_bytes() -> (r: Vec<u8>)
    ensures
        r@ == h_content_type(),
{
    proof {
        reveal_strlit("Content-Type");
        assert(vstd::string::is_ascii("Content-Type"));
    }
    ascii_bytes("Content-Type")
}

/// The Content-Encoding header name.
pub open spec fn h_content_encoding() -> Seq<u8> {
    ascii_seq("Content-Encoding"@)
}

/// The bytes of [`h_content_encoding`].
pub fn h_content_encoding_bytes() -> (r: Vec<u8>)
    ensures
        r@ == h_content_encoding(),
{
    proof {
        reveal_strlit("Content-Encoding");
        assert(vstd::string::is_ascii("Content-Encoding"));
    }
    ascii_bytes("Content-Encoding")
}

/// The Accept-Encoding header name.
pub open spec fn h_accept_encoding() -> Seq<u8> {
    ascii_seq("Accept-Encoding"@)
}

/// The bytes of [`h_accept_encoding`].
pub fn h_accept_encoding_bytes() -> (r: Vec<u8>)
    ensures
        r@ == h_accept_encoding(),
{
    proof {
        reveal_strlit("Accept-Encoding");
        assert(vstd::string::is_ascii("Accept-Encoding"));
    }
    ascii_bytes("Accept-Encoding")
}

/// The User-Agent header name.
pub open spec fn h_user_agent() -> Seq<u8> {
    ascii_seq("User-Agent"@)
}

/// The bytes of [`h_user_agent`].
pub fn h_user_agent_bytes() -> (r: Vec<u8>)
    ensures
        r@ == h_user_agent(),
{
    proof {
        reveal_strlit("User-Agent");
        assert(vstd::string::is_ascii("User-Agent"));
    }
    ascii_bytes("User-Agent")
}

/// The content type of plain-text bodies.
pub open spec fn v_text_plain() -> Seq<u8> {
    ascii_seq("text/plain"@)
}

/// The bytes of [`v_text_plain`].
pub fn v_text_plain_bytes() -> (r: Vec<u8>)
    ensures
        r@ == v_text_plain(),
{
    proof {
        reveal_strlit("text/plain");
        assert(vstd::string::is_ascii("text/plain"));
    }
    ascii_bytes("text/plain")
}

/// The content type of file bodies.
pub open spec fn v_octet_stream() -> Seq<u8> {
    ascii_seq("application/octet-stream"@)
}

/// The bytes of [`v_octet_stream`].
pub fn v_octet_stream_bytes() -> (r: Vec<u8>)
    ensures
        r@ == v_octet_stream(),
{
    proof {
        reveal_strlit("application/octet-stream");
        assert(vstd::string::is_ascii("application/octet-stream"));
    }
    ascii_bytes("application/octet-stream")
}

/// The gzip coding token.
pub open spec fn v_gzip() -> Seq<u8> {
    ascii_seq("gzip"@)
}

/// The bytes of [`v_gzip`].
pub fn v_gzip_bytes() -> (r: Vec<u8>)
    ensures
        r@ == v_gzip(),
{
    proof {
        reveal_strlit("gzip");
        assert(vstd::string::is_ascii("gzip"));
    }
    ascii_bytes("gzip")
}

/// The status line of a successful response.
pub open spec fn status_okay() -> Seq<u8> {
    ascii_seq("HTTP/1.1 200 OK\r\n"@)
}

/// The bytes of [`status_okay`].
pub fn status_okay_bytes() -> (r: Vec<u8>)
    ensures
        r@ == status_okay(),
{
    proof {
        reveal_strlit("HTTP/1.1 200 OK\r\n");
        assert(vstd::string::is_ascii("HTTP/1.1 200 OK\r\n"));
    }
    ascii_bytes("HTTP/1.1 200 OK\r\n")
}

/// The status line after a successful file write.
pub open spec fn status_created() -> Seq<u8> {
    ascii_seq("HTTP/1.1 201 Created\r\n"@)
}

/// The bytes of [`status_created`].
pub fn status_created_bytes() -> (r: Vec<u8>)
    ensures
        r@ == status_created(),
{
    proof {
        reveal_strlit("HTTP/1.1 201 Created\r\n");
        assert(vstd::string::is_ascii("HTTP/1.1 201 Created\r\n"));
    }
    ascii_bytes("HTTP/1.1 201 Created\r\n")
}

/// The status line for a malformed request.
pub open spec fn status_bad_request() -> Seq<u8> {
    ascii_seq("HTTP/1.1 400 Bad Request\r\n"@)
}

/// The bytes of [`status_bad_request`].
pub fn status_bad_request_bytes() -> (r: Vec<u8>)
    ensures
        r@ == status_bad_request(),
{
    proof {
        reveal_strlit("HTTP/1.1 400 Bad Request\r\n");
        assert(vstd::string::is_ascii("HTTP/1.1 400 Bad Request\r\n"));
    }
    ascii_bytes("HTTP/1.1 400 Bad Request\r\n")
}

/// The status line for an unknown route or a failed file operation.
pub open spec fn status_not_found() -> Seq<u8> {
    ascii_seq("HTTP/1.1 404 Not Found\r\n"@)
}

/// The bytes of [`status_not_found`].
pub fn status_not_found_bytes() -> (r: Vec<u8>)
    ensures
        r@ == status_not_found(),
{
    proof {
        reveal_strlit("HTTP/1.1 404 Not Found\r\n");
        assert(vstd::string::is_ascii("HTTP/1.1 404 Not Found\r\n"));
    }
    ascii_bytes("HTTP/1.1 404 Not Found\r\n")
}

/// The status line when no storage root is configured.
pub open spec fn status_internal_error() -> Seq<u8> {
    ascii_seq("HTTP/1.1 500 Internal Server Error\r\n"@)
}

/// The bytes of [`status_internal_error`].
pub fn status_internal_error_bytes() -> (r: Vec<u8>)
    ensures
        r@ == status_internal_error(),
{
    proof {
        reveal_strlit("HTTP/1.1 500 Internal Server Error\r\n");
        assert(vstd::string::is_ascii("HTTP/1.1 500 Internal Server Error\r\n"));
    }
    ascii_bytes("HTTP/1.1 500 Internal Server Error\r\n")
}

} // verus!
