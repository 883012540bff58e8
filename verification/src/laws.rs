//! The laws of the pipeline, stated over the spec functions the public
//! contracts use and proved once and for all.
use vstd::prelude::*;

verus! {

use crate::request::ReqModel;
use crate::request::Method;
use crate::request::first_header;
use crate::request::parse_spec;
use crate::response::RespModel;
use crate::response::Status;
use crate::router::RouteModel;
use crate::router::route_spec;
use crate::router::any_gzip;
use crate::handlers::echo_response_spec;
use crate::worker::StepModel;
use crate::worker::step_spec;
use crate::lit::echo_prefix;
use crate::lit::root_path;
use crate::lit::h_content_type;
use crate::lit::h_content_length;
use crate::lit::h_content_encoding;
use crate::text::is_prefix;
use crate::digits::dec_of;
use crate::digits::dec_val;
use crate::digits::all_digits;
use crate::digits::is_digit;
use crate::gzip::gzip_of;

proof fn lemma_header_names_distinct()
    ensures
        h_content_type() != h_content_length(),
        h_content_encoding() != h_content_length(),
{
    reveal_strlit("Content-Type");
    reveal_strlit("Content-Length");
    reveal_strlit("Content-Encoding");
    assert(h_content_type().len() == 12);
    assert(h_content_length().len() == 14);
    assert(h_content_encoding().len() == 16);
}

proof fn lemma_echo_path_not_root(path: Seq<u8>)
    requires
        is_prefix(echo_prefix(), path),
    ensures
        path != root_path(),
{
    reveal_strlit("/echo/");
    reveal_strlit("/");
    assert(echo_prefix().len() == 6);
    assert(root_path().len() == 1);
}

/// For every request that reaches the echo route without gzip negotiation:
/// the worker answers at once, with status 200, a `Content-Length` of
/// exactly the echoed value's byte length, and the value itself as body.
pub proof fn lemma_echo_plain(raw: Seq<u8>, req: ReqModel, storage_configured: bool)
    requires
        raw.len() != 0,
        parse_spec(raw) == Some(req),
        req.method == Method::Get,
        is_prefix(echo_prefix(), req.path),
        !any_gzip(req.headers),
    ensures
        ({
            let value = req.path.skip(echo_prefix().len() as int);
            let resp = echo_response_spec(value, false);
            &&& route_spec(req) == RouteModel::Echo { value, accepts_gzip: false }
            &&& step_spec(raw, storage_configured) == StepModel::Respond { response: resp }
            &&& resp.status == Status::Okay
            &&& resp.body == Some(value)
            &&& first_header(resp.headers, h_content_length()) == Some(dec_of(value.len()))
        }),
{
    lemma_echo_path_not_root(req.path);
    lemma_header_names_distinct();
    let value = req.path.skip(echo_prefix().len() as int);
    let resp = echo_response_spec(value, false);
    assert(first_header(resp.headers, h_content_length()) == first_header(
        resp.headers.drop_first(),
        h_content_length(),
    ));
}

/// For every request that reaches the echo route with gzip negotiated: the
/// worker answers at once with status 200, the gzip compression of the
/// echoed value as body, `Content-Encoding: gzip`, and a `Content-Length`
/// of exactly the compressed length.
pub proof fn lemma_echo_gzip(raw: Seq<u8>, req: ReqModel, storage_configured: bool)
    requires
        raw.len() != 0,
        parse_spec(raw) == Some(req),
        req.method == Method::Get,
        is_prefix(echo_prefix(), req.path),
        any_gzip(req.headers),
    ensures
        ({
            let value = req.path.skip(echo_prefix().len() as int);
            let resp = echo_response_spec(value, true);
            &&& route_spec(req) == RouteModel::Echo { value, accepts_gzip: true }
            &&& step_spec(raw, storage_configured) == StepModel::Respond { response: resp }
            &&& resp.status == Status::Okay
            &&& resp.body == Some(gzip_of(value))
            &&& first_header(resp.headers, h_content_length()) == Some(
                dec_of(gzip_of(value).len()),
            )
        }),
{
    lemma_echo_path_not_root(req.path);
    lemma_header_names_distinct();
    let value = req.path.skip(echo_prefix().len() as int);
    let resp = echo_response_spec(value, true);
    assert(first_header(resp.headers, h_content_length()) == first_header(
        resp.headers.drop_first(),
        h_content_length(),
    ));
}

/// A formatted length reads back as exactly the number it was formatted
/// from: the numeral is wholly numeric, and its decimal value is the
/// number. So a peer that parses a response's `Content-Length` recovers
/// the body's exact byte length.
pub proof fn lemma_dec_of_round_trip(n: nat)
    ensures
        all_digits(dec_of(n)),
        dec_val(dec_of(n)) == n,
    decreases n,
{
    if n < 10 {
        let s = dec_of(n);
        assert(s.drop_last() =~= Seq::<u8>::empty());
        assert(dec_val(s.drop_last()) == 0);
        assert(dec_val(s) == n);
    } else {
        lemma_dec_of_round_trip(n / 10);
        let s = dec_of(n);
        assert(s.drop_last() =~= dec_of(n / 10));
        assert(s.last() == (48 + n % 10) as u8);
        assert forall|i: int| 0 <= i < s.len() implies is_digit(#[trigger] s[i]) by {
            if i < s.len() - 1 {
                assert(s[i] == dec_of(n / 10)[i]);
            }
        }
        assert(dec_val(s) == dec_val(dec_of(n / 10)) * 10 + n % 10);
    }
}

/// When a response carries a `Content-Length` header, its value is the
/// exact byte length of the response's body.
pub open spec fn content_length_consistent(r: RespModel) -> bool {
    match first_header(r.headers, h_content_length()) {
        Some(v) => r.body matches Some(b) && v == dec_of(b.len()),
        None => true,
    }
}

/// Every response the worker ever sends keeps `Content-Length` consistent
/// with its body.
pub proof fn lemma_step_content_length(raw: Seq<u8>, storage_configured: bool)
    ensures
        step_spec(raw, storage_configured) matches StepModel::Respond { response }
            ==> content_length_consistent(response),
{
    lemma_header_names_distinct();
    match step_spec(raw, storage_configured) {
        StepModel::Respond { response } => {
            if response.headers.len() == 2 {
                assert(first_header(response.headers, h_content_length()) == first_header(
                    response.headers.drop_first(),
                    h_content_length(),
                ));
            }
        },
        _ => {},
    }
}

} // verus!
