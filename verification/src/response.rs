//! Structured responses and the encoder that serializes one onto the wire:
//! the status line, one line per header, a blank line, then the body bytes.
use vstd::prelude::*;

verus! {

use vstd::slice::slice_to_vec;
use crate::request::Header;
use crate::request::HeaderModel;
use crate::request::headers_view;
use crate::lit::crlf;
use crate::lit::crlf_bytes;
use crate::lit::header_sep;
use crate::lit::header_sep_bytes;
use crate::lit::status_okay;
use crate::lit::status_okay_bytes;
use crate::lit::status_created;
use crate::lit::status_created_bytes;
use crate::lit::status_bad_request;
use crate::lit::status_bad_request_bytes;
use crate::lit::status_not_found;
use crate::lit::status_not_found_bytes;
use crate::lit::status_internal_error;
use crate::lit::status_internal_error_bytes;

/// The statuses this core ever sends.
#[derive(Clone, Copy, PartialEq, Eq, Structural, Debug)]
pub enum Status {
    Okay,
    Created,
    BadRequest,
    NotFound,
    InternalServerError,
}

/// The full status line of a status, reason phrase and line terminator
/// included.
pub open spec fn status_line(s: Status) -> Seq<u8> {
    match s {
        Status::Okay => status_okay(),
        Status::Created => status_created(),
        Status::BadRequest => status_bad_request(),
        Status::NotFound => status_not_found(),
        Status::InternalServerError => status_internal_error(),
    }
}

/// The bytes of [`status_line`].
pub fn status_line_bytes(s: Status) -> (r: Vec<u8>)
    ensures
        r@ == status_line(s),
{
    match s {
        Status::Okay => status_okay_bytes(),
        Status::Created => status_created_bytes(),
        Status::BadRequest => status_bad_request_bytes(),
        Status::NotFound => status_not_found_bytes(),
        Status::InternalServerError => status_internal_error_bytes(),
    }
}

/// The mathematical model of a response.
#[verifier::ext_equal]
pub ghost struct RespModel {
    pub status: Status,
    pub headers: Seq<HeaderModel>,
    pub body: Option<Seq<u8>>,
}

/// A response: a status, an ordered header sequence, and an optional body.
/// When a `Content-Length` header is present its value is the exact byte
/// length of the body.
pub struct Response {
    pub status: Status,
    pub headers: Vec<Header>,
    pub body: Option<Vec<u8>>,
}

impl View for Response {
    type V = RespModel;

    open spec fn view(&self) -> RespModel {
        RespModel {
            status: self.status,
            headers: headers_view(self.headers@),
            body: match self.body {
                Some(b) => Some(b@),
                None => None,
            },
        }
    }
}

/// One header on the wire: name, separator, value, line terminator.
pub open spec fn header_line(h: HeaderModel) -> Seq<u8> {
    h.name + header_sep() + h.value + crlf()
}

/// A header block on the wire, one line per header, in order.
pub open spec fn headers_bytes(hs: Seq<HeaderModel>) -> Seq<u8>
    decreases hs.len(),
{
    if hs.len() == 0 {
        Seq::<u8>::empty()
    } else {
        headers_bytes(hs.drop_last()) + header_line(hs.last())
    }
}

/// The body bytes of a response; an absent body contributes nothing.
pub open spec fn body_bytes(b: Option<Seq<u8>>) -> Seq<u8> {
    match b {
        Some(x) => x,
        None => Seq::<u8>::empty(),
    }
}

/// The wire bytes of a response: status line, header block, blank line,
/// body.
pub open spec fn encode_spec(r: RespModel) -> Seq<u8> {
    status_line(r.status) + headers_bytes(r.headers) + crlf() + body_bytes(r.body)
}

/// Serializes a response into its wire bytes, as [`encode_spec`]
/// describes.
pub fn encode_response(resp: &Response) -> (r: Vec<u8>)
    ensures
        r@ == encode_spec(resp@),
{
    let mut out = status_line_bytes(resp.status);
    let sep = header_sep_bytes();
    let line_end = crlf_bytes();
    let mut i: usize = 0;
    while i < resp.headers.len()
        invariant
            0 <= i <= resp.headers@.len(),
            out@ == status_line(resp@.status) + headers_bytes(resp@.headers.subrange(0, i as int)),
            sep@ == header_sep(),
            line_end@ == crlf(),
            resp@.headers == headers_view(resp.headers@),
            resp@.status == resp.status,
        decreases resp.headers@.len() - i,
    {
        out.extend_from_slice(resp.headers[i].name.as_slice());
        out.extend_from_slice(sep.as_slice());
        out.extend_from_slice(resp.headers[i].value.as_slice());
        out.extend_from_slice(line_end.as_slice());
        proof {
            assert(resp@.headers.subrange(0, i + 1).drop_last() =~~= resp@.headers.subrange(
                0,
                i as int,
            ));
            assert(resp@.headers.subrange(0, i + 1).last() =~~= resp@.headers[i as int]);
            assert(out@ =~= status_line(resp@.status) + headers_bytes(
                resp@.headers.subrange(0, i + 1),
            ));
        }
        i = i + 1;
    }
    proof {
        assert(resp@.headers.subrange(0, resp.headers@.len() as int) =~~= resp@.headers);
    }
    out.extend_from_slice(line_end.as_slice());
    match &resp.body {
        Some(b) => {
            out.extend_from_slice(b.as_slice());
        },
        None => {},
    }
    proof {
        assert(out@ =~= encode_spec(resp@));
    }
    out
}

} // verus!
