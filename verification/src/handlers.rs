//! The handlers behind the routes: echo (plain or gzip-compressed),
//! user-agent reflection, file read and file write, each producing a
//! structured response whose `Content-Length` is the exact byte length of
//! its body.
use vstd::prelude::*;

verus! {

use vstd::slice::slice_subrange;
use vstd::slice::slice_to_vec;
use vstd::utf8::valid_utf8;
use crate::request::Header;
use crate::request::HeaderModel;
use crate::response::Response;
use crate::response::RespModel;
use crate::response::Status;
use crate::response::encode_spec;
use crate::response::encode_response;
use crate::text::trim_seq;
use crate::text::trim_bytes;
use crate::text::tokenize;
use crate::text::tokenize_vec;
use crate::text::find_sub;
use crate::text::find_sub_index;
use crate::text::is_prefix;
use crate::text::starts_with;
use crate::text::lemma_find_sub_bounds;
use crate::lit::h_content_type;
use crate::lit::h_content_type_bytes;
use crate::lit::h_content_length;
use crate::lit::h_content_length_bytes;
use crate::lit::h_content_encoding;
use crate::lit::h_content_encoding_bytes;
use crate::lit::v_text_plain;
use crate::lit::v_text_plain_bytes;
use crate::lit::v_octet_stream;
use crate::lit::v_octet_stream_bytes;
use crate::lit::v_gzip;
use crate::lit::v_gzip_bytes;
use crate::lit::echo_prefix;
use crate::lit::echo_prefix_bytes;
use crate::digits::dec_of;
use crate::digits::dec_of_u64;
use crate::gzip::gzip_of;
use crate::gzip::gzip_compress;

/// A response with a status and nothing else: no headers, no body.
pub open spec fn empty_response_spec(status: Status) -> RespModel {
    RespModel { status, headers: Seq::<HeaderModel>::empty(), body: None }
}

/// Builds the response [`empty_response_spec`] describes.
pub fn empty_response(status: Status) -> (r: Response)
    ensures
        r@ == empty_response_spec(status),
{
    let r = Response { status, headers: Vec::new(), body: None };
    proof {
        assert(r@ =~~= empty_response_spec(status));
    }
    r
}

/// A plain-text success: status 200, `Content-Type: text/plain`, a
/// `Content-Length` of exactly the body's byte length, and the body.
pub open spec fn text_response_spec(body: Seq<u8>) -> RespModel {
    RespModel {
        status: Status::Okay,
        headers: seq![
            HeaderModel { name: h_content_type(), value: v_text_plain() },
            HeaderModel { name: h_content_length(), value: dec_of(body.len()) },
        ],
        body: Some(body),
    }
}

/// Builds the response [`text_response_spec`] describes.
pub fn text_response(body: Vec<u8>) -> (r: Response)
    ensures
        r@ == text_response_spec(body@),
{
    let content_length = dec_of_u64(body.len() as u64);
    let mut headers: Vec<Header> = Vec::new();
    headers.push(Header { name: h_content_type_bytes(), value: v_text_plain_bytes() });
    headers.push(Header { name: h_content_length_bytes(), value: content_length });
    let r = Response { status: Status::Okay, headers, body: Some(body) };
    proof {
        assert(r@ =~~= text_response_spec(r.body->Some_0@));
    }
    r
}

/// The echo response: the value itself as a plain-text body, or, when gzip
/// was negotiated, the gzip compression of the value with
/// `Content-Encoding: gzip` and a `Content-Length` of the compressed
/// length.
pub open spec fn echo_response_spec(value: Seq<u8>, accepts_gzip: bool) -> RespModel {
    if accepts_gzip {
        RespModel {
            status: Status::Okay,
            headers: seq![
                HeaderModel { name: h_content_encoding(), value: v_gzip() },
                HeaderModel { name: h_content_length(), value: dec_of(gzip_of(value).len()) },
            ],
            body: Some(gzip_of(value)),
        }
    } else {
        text_response_spec(value)
    }
}

/// Builds the response [`echo_response_spec`] describes.
pub fn echo_response(value: &[u8], accepts_gzip: bool) -> (r: Response)
    ensures
        r@ == echo_response_spec(value@, accepts_gzip),
{
    if accepts_gzip {
        let compressed = gzip_compress(value);
        let content_length = dec_of_u64(compressed.len() as u64);
        let mut headers: Vec<Header> = Vec::new();
        headers.push(Header { name: h_content_encoding_bytes(), value: v_gzip_bytes() });
        headers.push(Header { name: h_content_length_bytes(), value: content_length });
        let r = Response { status: Status::Okay, headers, body: Some(compressed) };
        proof {
            assert(r@ =~~= echo_response_spec(value@, true));
        }
        r
    } else {
        text_response(slice_to_vec(value))
    }
}

/// The user-agent response: the value trimmed of leading and trailing
/// whitespace, returned as a plain-text body.
pub open spec fn user_agent_response_spec(value: Seq<u8>) -> RespModel {
    text_response_spec(trim_seq(value))
}

/// Builds the response [`user_agent_response_spec`] describes.
pub fn user_agent_response(value: &[u8]) -> (r: Response)
    ensures
        r@ == user_agent_response_spec(value@),
{
    text_response(trim_bytes(value))
}

/// The file-read response: when the file was read and its bytes are valid
/// UTF-8, status 200 with `Content-Type: application/octet-stream`, the
/// exact `Content-Length`, and the bytes as body; any failure, a missing
/// file or non-UTF-8 content included, is a bare 404.
pub open spec fn file_read_response_spec(outcome: Option<Seq<u8>>) -> RespModel {
    match outcome {
        Some(b) => {
            if valid_utf8(b) {
                RespModel {
                    status: Status::Okay,
                    headers: seq![
                        HeaderModel { name: h_content_type(), value: v_octet_stream() },
                        HeaderModel { name: h_content_length(), value: dec_of(b.len()) },
                    ],
                    body: Some(b),
                }
            } else {
                empty_response_spec(Status::NotFound)
            }
        },
        None => empty_response_spec(Status::NotFound),
    }
}

/// Relies on std's `str::from_utf8`: it returns `Ok` exactly on the byte
/// slices that are valid UTF-8, the property `vstd::utf8::valid_utf8`
/// describes.
#[verifier::external_body]
fn is_utf8(b: &[u8]) -> (r: bool)
    ensures
        r == valid_utf8(b@),
{
    core::str::from_utf8(b).is_ok()
}

/// Builds the response [`file_read_response_spec`] describes from the
/// outcome of the caller's attempt to read the file.
pub fn file_read_response(outcome: Option<Vec<u8>>) -> (r: Response)
    ensures
        r@ == file_read_response_spec(
            match outcome {
                Some(b) => Some(b@),
                None => None,
            },
        ),
{
    match outcome {
        Some(b) => {
            if is_utf8(b.as_slice()) {
                let content_length = dec_of_u64(b.len() as u64);
                let mut headers: Vec<Header> = Vec::new();
                headers.push(Header { name: h_content_type_bytes(), value: v_octet_stream_bytes() });
                headers.push(Header { name: h_content_length_bytes(), value: content_length });
                let r = Response { status: Status::Okay, headers, body: Some(b) };
                proof {
                    assert(r@ =~~= file_read_response_spec(Some(r.body->Some_0@)));
                }
                r
            } else {
                empty_response(Status::NotFound)
            }
        },
        None => empty_response(Status::NotFound),
    }
}

/// The file-write response: a bare 201 on success, a bare 404 on a failed
/// create or write.
pub open spec fn file_write_response_spec(ok: bool) -> RespModel {
    if ok {
        empty_response_spec(Status::Created)
    } else {
        empty_response_spec(Status::NotFound)
    }
}

/// Builds the response [`file_write_response_spec`] describes from the
/// outcome of the caller's attempt to write the file.
pub fn file_write_response(ok: bool) -> (r: Response)
    ensures
        r@ == file_write_response_spec(ok),
{
    if ok {
        empty_response(Status::Created)
    } else {
        empty_response(Status::NotFound)
    }
}

/// The value echoed by a raw request line: the part of its second
/// whitespace-separated token after the first `/echo/`, when both exist.
pub open spec fn echo_line_value(line: Seq<u8>) -> Option<Seq<u8>> {
    let toks = tokenize(line);
    if toks.len() >= 2 {
        match find_sub(toks[1], echo_prefix()) {
            Some(i) => {
                if 0 <= i && i + echo_prefix().len() <= toks[1].len() {
                    Some(toks[1].skip(i + echo_prefix().len()))
                } else {
                    None
                }
            },
            None => None,
        }
    } else {
        None
    }
}

/// Some token of the list starts with `gzip`.
pub open spec fn gzip_token_present(toks: Seq<Seq<u8>>) -> bool {
    exists|i: int| 0 <= i < toks.len() && is_prefix(v_gzip(), #[trigger] toks[i])
}

fn gzip_token_present_exec(toks: &Vec<Vec<u8>>) -> (r: bool)
    ensures
        r == gzip_token_present(toks.deep_view()),
{
    let gz = v_gzip_bytes();
    let mut i: usize = 0;
    proof {
        assert(toks.deep_view().len() == toks@.len());
    }
    while i < toks.len()
        invariant
            0 <= i <= toks@.len(),
            gz@ == v_gzip(),
            toks.deep_view().len() == toks@.len(),
            forall|j: int| 0 <= j < i ==> !is_prefix(v_gzip(), #[trigger] toks.deep_view()[j]),
        decreases toks@.len() - i,
    {
        proof {
            assert(toks.deep_view()[i as int] == toks@[i as int]@);
        }
        if starts_with(toks[i].as_slice(), gz.as_slice()) {
            proof {
                assert(is_prefix(v_gzip(), toks.deep_view()[i as int]));
            }
            return true;
        }
        i = i + 1;
    }
    false
}

/// Serves the echo route straight from a raw request line: the echoed
/// value is the part of the line's second token after `/echo/`, and gzip
/// is negotiated when any of the given tokens starts with `gzip`. Returns
/// the response head and, separately, the compressed body; without gzip
/// the body is part of the head and the second component is empty.
pub fn get_url_path(request_line: &[u8], content_type: &Vec<Vec<u8>>) -> (r: (Vec<u8>, Vec<u8>))
    requires
        echo_line_value(request_line@) is Some,
    ensures
        ({
            let gz = gzip_token_present(content_type.deep_view());
            match echo_line_value(request_line@) {
                Some(value) => r.0@ + r.1@ == encode_spec(echo_response_spec(value, gz)) && r.1@
                    == (if gz {
                    gzip_of(value)
                } else {
                    Seq::<u8>::empty()
                }),
                None => false,
            }
        }),
{
    let toks = tokenize_vec(request_line);
    proof {
        assert(toks.deep_view().len() == toks@.len());
        assert(toks.deep_view().len() >= 2);
        assert(toks.deep_view()[1] == toks@[1]@);
        lemma_find_sub_bounds(toks@[1]@, echo_prefix());
    }
    let echo_p = echo_prefix_bytes();
    let second = &toks[1];
    let gz = gzip_token_present_exec(content_type);
    match find_sub_index(second.as_slice(), echo_p.as_slice()) {
        Some(i) => {
            let end = second.len();
            let value = slice_to_vec(slice_subrange(second.as_slice(), i + echo_p.len(), end));
            proof {
                assert(value@ =~= echo_line_value(request_line@)->Some_0);
            }
            if gz {
                let resp = echo_response(value.as_slice(), true);
                match resp.body {
                    Some(body) => {
                        let head_only = Response {
                            status: resp.status,
                            headers: resp.headers,
                            body: None,
                        };
                        let head = encode_response(&head_only);
                        proof {
                            assert(head@ + body@ =~= encode_spec(
                                echo_response_spec(value@, true),
                            ));
                        }
                        (head, body)
                    },
                    None => {
                        proof {
                            assert(false);
                        }
                        (Vec::new(), Vec::new())
                    },
                }
            } else {
                let resp = echo_response(value.as_slice(), false);
                let head = encode_response(&resp);
                (head, Vec::new())
            }
        },
        None => {
            proof {
                assert(false);
            }
            (Vec::new(), Vec::new())
        },
    }
}

/// Serves the user-agent route straight from the raw header value,
/// returning the full response bytes as the wire carries them.
pub fn handle_user_agent(user_agent: &[u8]) -> (r: Vec<u8>)
    ensures
        r@ == encode_spec(user_agent_response_spec(user_agent@)),
{
    let resp = user_agent_response(user_agent);
    encode_response(&resp)
}

} // verus!
