//! Structured requests and the parser that builds one from the raw bytes
//! read off a connection.
use vstd::prelude::*;

verus! {

use vstd::slice::slice_subrange;
use vstd::slice::slice_to_vec;
use crate::text::find_sub;
use crate::text::find_sub_index;
use crate::text::split_on;
use crate::text::split_on_vec;
use crate::text::tokenize;
use crate::text::tokenize_vec;
use crate::text::trim_seq;
use crate::text::trim_bytes;
use crate::text::bytes_eq;
use crate::text::lemma_find_sub_bounds;
use crate::lit::crlf;
use crate::lit::crlf_bytes;
use crate::lit::head_end;
use crate::lit::head_end_bytes;
use crate::lit::colon;
use crate::lit::colon_bytes;
use crate::lit::tok_get;
use crate::lit::tok_get_bytes;
use crate::lit::tok_post;
use crate::lit::tok_post_bytes;
use crate::lit::h_content_length;
use crate::lit::h_content_length_bytes;
use crate::digits::parse_dec;
use crate::digits::parse_dec_bytes;

/// The request method, as far as this core distinguishes methods.
#[derive(Clone, Copy, PartialEq, Eq, Structural, Debug)]
pub enum Method {
    Get,
    Post,
    Other,
}

/// The mathematical model of a header: a name and a value.
#[verifier::ext_equal]
pub ghost struct HeaderModel {
    pub name: Seq<u8>,
    pub value: Seq<u8>,
}

/// One header line, split at its first colon, the value trimmed.
pub struct Header {
    pub name: Vec<u8>,
    pub value: Vec<u8>,
}

impl View for Header {
    type V = HeaderModel;

    open spec fn view(&self) -> HeaderModel {
        HeaderModel { name: self.name@, value: self.value@ }
    }
}

/// The models of a sequence of headers.
pub open spec fn headers_view(hs: Seq<Header>) -> Seq<HeaderModel> {
    Seq::new(hs.len(), |i: int| hs[i]@)
}

/// The mathematical model of a request.
#[verifier::ext_equal]
pub ghost struct ReqModel {
    pub method: Method,
    pub path: Seq<u8>,
    pub version: Seq<u8>,
    pub headers: Seq<HeaderModel>,
    pub body: Seq<u8>,
}

/// A parsed request: the three request-line tokens, the header block, and
/// the body bytes (present only for POST, truncated to the declared
/// `Content-Length`).
pub struct Request {
    pub method: Method,
    pub path: Vec<u8>,
    pub version: Vec<u8>,
    pub headers: Vec<Header>,
    pub body: Vec<u8>,
}

impl View for Request {
    type V = ReqModel;

    open spec fn view(&self) -> ReqModel {
        ReqModel {
            method: self.method,
            path: self.path@,
            version: self.version@,
            headers: headers_view(self.headers@),
            body: self.body@,
        }
    }
}

/// The method that a request-line token names.
pub open spec fn method_of(tok: Seq<u8>) -> Method {
    if tok == tok_get() {
        Method::Get
    } else if tok == tok_post() {
        Method::Post
    } else {
        Method::Other
    }
}

/// The part of the raw bytes before the first blank line; all of them when
/// no blank line occurs.
pub open spec fn head_of(raw: Seq<u8>) -> Seq<u8> {
    match find_sub(raw, head_end()) {
        Some(i) => {
            if 0 <= i && i <= raw.len() {
                raw.subrange(0, i)
            } else {
                raw
            }
        },
        None => raw,
    }
}

/// The part of the raw bytes after the first blank line; empty when no
/// blank line occurs.
pub open spec fn tail_of(raw: Seq<u8>) -> Seq<u8> {
    match find_sub(raw, head_end()) {
        Some(i) => {
            if 0 <= i && i + head_end().len() <= raw.len() {
                raw.subrange(i + head_end().len(), raw.len() as int)
            } else {
                Seq::empty()
            }
        },
        None => Seq::empty(),
    }
}

/// The headers among a sequence of lines: the lines before the first blank
/// line that contain a colon, each split at its first colon, the value
/// trimmed.
pub open spec fn headers_of(lines: Seq<Seq<u8>>) -> Seq<HeaderModel>
    decreases lines.len(),
{
    if lines.len() == 0 || lines[0].len() == 0 {
        Seq::<HeaderModel>::empty()
    } else {
        let rest = headers_of(lines.drop_first());
        match find_sub(lines[0], colon()) {
            Some(i) => {
                if 0 <= i && i + colon().len() <= lines[0].len() {
                    seq![
                        HeaderModel {
                            name: lines[0].subrange(0, i),
                            value: trim_seq(
                                lines[0].subrange(i + colon().len(), lines[0].len() as int),
                            ),
                        },
                    ] + rest
                } else {
                    rest
                }
            },
            None => rest,
        }
    }
}

/// The value of the first header with the given name, scanning in received
/// order.
pub open spec fn first_header(headers: Seq<HeaderModel>, name: Seq<u8>) -> Option<Seq<u8>>
    decreases headers.len(),
{
    if headers.len() == 0 {
        None
    } else if headers[0].name == name {
        Some(headers[0].value)
    } else {
        first_header(headers.drop_first(), name)
    }
}

/// The declared `Content-Length` of a header block, when its first
/// `Content-Length` header carries a well-formed decimal numeral.
pub open spec fn content_length_of(headers: Seq<HeaderModel>) -> Option<nat> {
    match first_header(headers, h_content_length()) {
        Some(v) => parse_dec(v),
        None => None,
    }
}

/// The first `n` bytes of `s`, or all of `s` when it is shorter.
pub open spec fn take_at_most(s: Seq<u8>, n: nat) -> Seq<u8> {
    if n <= s.len() {
        s.subrange(0, n as int)
    } else {
        s
    }
}

pub proof fn lemma_split_on_nonempty(s: Seq<u8>, pat: Seq<u8>)
    ensures
        split_on(s, pat).len() >= 1,
{
}

/// What parsing the raw bytes of one request yields: the request-line
/// tokens as method, path and version, the header block, and for POST the
/// body located after the blank line and truncated to the declared
/// `Content-Length`. Parsing fails on a request line of fewer than three
/// tokens, and on a POST without a well-formed `Content-Length`.
pub open spec fn parse_spec(raw: Seq<u8>) -> Option<ReqModel> {
    let lines = split_on(head_of(raw), crlf());
    let toks = tokenize(lines[0]);
    if toks.len() < 3 {
        None
    } else {
        let method = method_of(toks[0]);
        let headers = headers_of(lines.drop_first());
        if method == Method::Post {
            match content_length_of(headers) {
                Some(n) => Some(
                    ReqModel {
                        method,
                        path: toks[1],
                        version: toks[2],
                        headers,
                        body: take_at_most(tail_of(raw), n),
                    },
                ),
                None => None,
            }
        } else {
            Some(
                ReqModel {
                    method,
                    path: toks[1],
                    version: toks[2],
                    headers,
                    body: Seq::empty(),
                },
            )
        }
    }
}

fn parse_method(tok: &[u8]) -> (r: Method)
    ensures
        r == method_of(tok@),
{
    let get_tok = tok_get_bytes();
    if bytes_eq(tok, get_tok.as_slice()) {
        return Method::Get;
    }
    let post_tok = tok_post_bytes();
    if bytes_eq(tok, post_tok.as_slice()) {
        return Method::Post;
    }
    Method::Other
}

fn headers_from(lines: &Vec<Vec<u8>>, i: usize) -> (r: Vec<Header>)
    requires
        i <= lines@.len(),
    ensures
        headers_view(r@) == headers_of(lines.deep_view().skip(i as int)),
    decreases lines@.len() - i,
{
    proof {
        assert(lines.deep_view().len() == lines@.len());
    }
    if i == lines.len() || lines[i].len() == 0 {
        let out: Vec<Header> = Vec::new();
        proof {
            assert(headers_view(out@) =~~= headers_of(lines.deep_view().skip(i as int)));
        }
        return out;
    }
    let mut rest = headers_from(lines, i + 1);
    let colon_pat = colon_bytes();
    let line = &lines[i];
    proof {
        reveal_strlit(":");
        assert(lines.deep_view().skip(i as int).drop_first() =~~= lines.deep_view().skip(
            i as int + 1,
        ));
        assert(lines.deep_view().skip(i as int)[0] == line@);
        lemma_find_sub_bounds(line@, colon());
    }
    match find_sub_index(line.as_slice(), colon_pat.as_slice()) {
        Some(j) => {
            let name = slice_to_vec(slice_subrange(line.as_slice(), 0, j));
            let value = trim_bytes(slice_subrange(line.as_slice(), j + colon_pat.len(), line.len()));
            rest.insert(0, Header { name, value });
            proof {
                assert(headers_view(rest@) =~~= headers_of(lines.deep_view().skip(i as int)));
            }
            rest
        },
        None => {
            proof {
                assert(headers_view(rest@) =~~= headers_of(lines.deep_view().skip(i as int)));
            }
            rest
        },
    }
}

fn first_header_from(headers: &Vec<Header>, i: usize, name: &[u8]) -> (r: Option<Vec<u8>>)
    requires
        i <= headers@.len(),
    ensures
        match r {
            Some(v) => first_header(headers_view(headers@).skip(i as int), name@) == Some(v@),
            None => first_header(headers_view(headers@).skip(i as int), name@) is None,
        },
    decreases headers@.len() - i,
{
    proof {
        assert(headers_view(headers@).skip(i as int).len() == headers@.len() - i);
    }
    if i == headers.len() {
        return None;
    }
    proof {
        assert(headers_view(headers@).skip(i as int)[0] == headers@[i as int]@);
        assert(headers_view(headers@).skip(i as int).drop_first() =~~= headers_view(
            headers@,
        ).skip(i as int + 1));
    }
    if bytes_eq(headers[i].name.as_slice(), name) {
        Some(slice_to_vec(headers[i].value.as_slice()))
    } else {
        first_header_from(headers, i + 1, name)
    }
}

/// The value of the first header with the given name, copied out.
pub fn first_header_value(headers: &Vec<Header>, name: &[u8]) -> (r: Option<Vec<u8>>)
    ensures
        match r {
            Some(v) => first_header(headers_view(headers@), name@) == Some(v@),
            None => first_header(headers_view(headers@), name@) is None,
        },
{
    proof {
        assert(headers_view(headers@).skip(0) =~~= headers_view(headers@));
    }
    first_header_from(headers, 0, name)
}

/// Parses the raw bytes of one request, as [`parse_spec`] describes;
/// `None` is a malformed request.
pub fn parse_request(raw: &[u8]) -> (r: Option<Request>)
    ensures
        match r {
            Some(req) => parse_spec(raw@) == Some(req@),
            None => parse_spec(raw@) is None,
        },
{
    let n = raw.len();
    let head_end_pat = head_end_bytes();
    proof {
        lemma_find_sub_bounds(raw@, head_end());
    }
    let (head, tail): (&[u8], &[u8]) = match find_sub_index(raw, head_end_pat.as_slice()) {
        Some(i) => (slice_subrange(raw, 0, i), slice_subrange(raw, i + head_end_pat.len(), n)),
        None => (raw, slice_subrange(raw, n, n)),
    };
    proof {
        assert(head@ == head_of(raw@));
        assert(tail@ =~= tail_of(raw@));
    }
    let crlf_pat = crlf_bytes();
    let lines = split_on_vec(head, crlf_pat.as_slice());
    proof {
        lemma_split_on_nonempty(head@, crlf());
        assert(lines.deep_view().len() == lines@.len());
        assert(lines.deep_view()[0] == lines@[0]@);
    }
    let toks = tokenize_vec(lines[0].as_slice());
    proof {
        assert(toks.deep_view().len() == toks@.len());
    }
    if toks.len() < 3 {
        return None;
    }
    let method = parse_method(toks[0].as_slice());
    let headers = headers_from(&lines, 1);
    proof {
        assert(lines.deep_view().skip(1) =~~= lines.deep_view().drop_first());
        assert(toks.deep_view()[0] == toks@[0]@);
        assert(toks.deep_view()[1] == toks@[1]@);
        assert(toks.deep_view()[2] == toks@[2]@);
    }
    let path = slice_to_vec(toks[1].as_slice());
    let version = slice_to_vec(toks[2].as_slice());
    if method == Method::Post {
        let cl_name = h_content_length_bytes();
        let body: Vec<u8> = match first_header_value(&headers, cl_name.as_slice()) {
            Some(v) => {
                match parse_dec_bytes(v.as_slice()) {
                    Some(cl) => {
                        if cl <= tail.len() as u64 {
                            slice_to_vec(slice_subrange(tail, 0, cl as usize))
                        } else {
                            slice_to_vec(tail)
                        }
                    },
                    None => {
                        return None;
                    },
                }
            },
            None => {
                return None;
            },
        };
        let req = Request { method, path, version, headers, body };
        proof {
            assert(parse_spec(raw@) == Some(req@)) by {
                assert(parse_spec(raw@) matches Some(m) && m =~~= req@);
            }
        }
        Some(req)
    } else {
        let req = Request { method, path, version, headers, body: Vec::new() };
        proof {
            assert(parse_spec(raw@) == Some(req@)) by {
                assert(parse_spec(raw@) matches Some(m) && m =~~= req@);
            }
        }
        Some(req)
    }
}

} // verus!
