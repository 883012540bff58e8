//! The router: a pure function from a parsed request to the route it
//! matches, first match winning.
use vstd::prelude::*;

verus! {

use vstd::slice::slice_subrange;
use vstd::slice::slice_to_vec;
use crate::request::Request;
use crate::request::ReqModel;
use crate::request::Header;
use crate::request::HeaderModel;
use crate::request::Method;
use crate::request::headers_view;
use crate::request::first_header;
use crate::request::first_header_value;
use crate::request::content_length_of;
use crate::text::is_prefix;
use crate::text::starts_with;
use crate::text::contains_sub;
use crate::text::contains_sub_bytes;
use crate::text::bytes_eq;
use crate::lit::root_path;
use crate::lit::root_path_bytes;
use crate::lit::echo_prefix;
use crate::lit::echo_prefix_bytes;
use crate::lit::user_agent_path;
use crate::lit::user_agent_path_bytes;
use crate::lit::files_prefix;
use crate::lit::files_prefix_bytes;
use crate::lit::h_accept_encoding;
use crate::lit::h_accept_encoding_bytes;
use crate::lit::h_user_agent;
use crate::lit::h_user_agent_bytes;
use crate::lit::h_content_length_bytes;
use crate::lit::v_gzip;
use crate::lit::v_gzip_bytes;
use crate::digits::parse_dec_bytes;

/// The mathematical model of a route match.
#[verifier::ext_equal]
pub ghost enum RouteModel {
    Root,
    Echo { value: Seq<u8>, accepts_gzip: bool },
    UserAgent { value: Seq<u8> },
    FileRead { filename: Seq<u8> },
    FileWrite { filename: Seq<u8>, declared_len: nat },
    NotFound,
    BadRequest,
}

/// Where a request is dispatched: one of the five handled routes, or a
/// rejection.
pub enum Route {
    Root,
    Echo { value: Vec<u8>, accepts_gzip: bool },
    UserAgent { value: Vec<u8> },
    FileRead { filename: Vec<u8> },
    FileWrite { filename: Vec<u8>, declared_len: u64 },
    NotFound,
    BadRequest,
}

impl View for Route {
    type V = RouteModel;

    open spec fn view(&self) -> RouteModel {
        match self {
            Route::Root => RouteModel::Root,
            Route::Echo { value, accepts_gzip } => RouteModel::Echo {
                value: value@,
                accepts_gzip: *accepts_gzip,
            },
            Route::UserAgent { value } => RouteModel::UserAgent { value: value@ },
            Route::FileRead { filename } => RouteModel::FileRead { filename: filename@ },
            Route::FileWrite { filename, declared_len } => RouteModel::FileWrite {
                filename: filename@,
                declared_len: *declared_len as nat,
            },
            Route::NotFound => RouteModel::NotFound,
            Route::BadRequest => RouteModel::BadRequest,
        }
    }
}

/// Some `Accept-Encoding` header value contains `gzip`.
pub open spec fn any_gzip(headers: Seq<HeaderModel>) -> bool {
    exists|i: int|
        0 <= i < headers.len() && headers[i].name == h_accept_encoding() && contains_sub(
            #[trigger] headers[i].value,
            v_gzip(),
        )
}

/// The route a request matches, in order: the root path for GET; a POST
/// under the file prefix writes a file, rejected without a filename or a
/// well-formed `Content-Length`; GET under the echo prefix echoes, gzip
/// negotiated through `Accept-Encoding`; GET of the user-agent path
/// reflects the first `User-Agent` value, empty when absent; GET under the
/// file prefix reads a file; everything else is unknown.
pub open spec fn route_spec(req: ReqModel) -> RouteModel {
    if req.method == Method::Get && req.path == root_path() {
        RouteModel::Root
    } else if req.method == Method::Post && is_prefix(files_prefix(), req.path) {
        let filename = req.path.skip(files_prefix().len() as int);
        if filename.len() == 0 {
            RouteModel::BadRequest
        } else {
            match content_length_of(req.headers) {
                Some(n) => RouteModel::FileWrite { filename, declared_len: n },
                None => RouteModel::BadRequest,
            }
        }
    } else if req.method == Method::Get && is_prefix(echo_prefix(), req.path) {
        RouteModel::Echo {
            value: req.path.skip(echo_prefix().len() as int),
            accepts_gzip: any_gzip(req.headers),
        }
    } else if req.method == Method::Get && req.path == user_agent_path() {
        RouteModel::UserAgent {
            value: match first_header(req.headers, h_user_agent()) {
                Some(v) => v,
                None => Seq::<u8>::empty(),
            },
        }
    } else if req.method == Method::Get && is_prefix(files_prefix(), req.path) {
        RouteModel::FileRead { filename: req.path.skip(files_prefix().len() as int) }
    } else {
        RouteModel::NotFound
    }
}

fn accepts_gzip_exec(headers: &Vec<Header>) -> (r: bool)
    ensures
        r == any_gzip(headers_view(headers@)),
{
    let enc_name = h_accept_encoding_bytes();
    let gz = v_gzip_bytes();
    let mut i: usize = 0;
    while i < headers.len()
        invariant
            0 <= i <= headers@.len(),
            enc_name@ == h_accept_encoding(),
            gz@ == v_gzip(),
            forall|j: int|
                0 <= j < i ==> !(headers_view(headers@)[j].name == h_accept_encoding()
                    && contains_sub(#[trigger] headers_view(headers@)[j].value, v_gzip())),
        decreases headers@.len() - i,
    {
        if bytes_eq(headers[i].name.as_slice(), enc_name.as_slice()) && contains_sub_bytes(
            headers[i].value.as_slice(),
            gz.as_slice(),
        ) {
            proof {
                assert(headers_view(headers@)[i as int].name == h_accept_encoding());
                assert(contains_sub(headers_view(headers@)[i as int].value, v_gzip()));
            }
            return true;
        }
        i = i + 1;
    }
    false
}

/// Dispatches a parsed request, as [`route_spec`] describes.
pub fn route(req: &Request) -> (r: Route)
    ensures
        r@ == route_spec(req@),
{
    let root_p = root_path_bytes();
    if req.method == Method::Get && bytes_eq(req.path.as_slice(), root_p.as_slice()) {
        return Route::Root;
    }
    let files_p = files_prefix_bytes();
    if req.method == Method::Post && starts_with(req.path.as_slice(), files_p.as_slice()) {
        let filename = slice_to_vec(
            slice_subrange(req.path.as_slice(), files_p.len(), req.path.len()),
        );
        proof {
            assert(filename@ =~= req@.path.skip(files_prefix().len() as int));
        }
        if filename.len() == 0 {
            return Route::BadRequest;
        }
        let cl_name = h_content_length_bytes();
        match first_header_value(&req.headers, cl_name.as_slice()) {
            Some(v) => {
                match parse_dec_bytes(v.as_slice()) {
                    Some(n) => {
                        return Route::FileWrite { filename, declared_len: n };
                    },
                    None => {
                        return Route::BadRequest;
                    },
                }
            },
            None => {
                return Route::BadRequest;
            },
        }
    }
    let echo_p = echo_prefix_bytes();
    if req.method == Method::Get && starts_with(req.path.as_slice(), echo_p.as_slice()) {
        let value = slice_to_vec(slice_subrange(req.path.as_slice(), echo_p.len(), req.path.len()));
        proof {
            assert(value@ =~= req@.path.skip(echo_prefix().len() as int));
        }
        return Route::Echo { value, accepts_gzip: accepts_gzip_exec(&req.headers) };
    }
    let ua_path = user_agent_path_bytes();
    if req.method == Method::Get && bytes_eq(req.path.as_slice(), ua_path.as_slice()) {
        let ua_name = h_user_agent_bytes();
        let value = match first_header_value(&req.headers, ua_name.as_slice()) {
            Some(v) => v,
            None => Vec::new(),
        };
        return Route::UserAgent { value };
    }
    if req.method == Method::Get && starts_with(req.path.as_slice(), files_p.as_slice()) {
        let filename = slice_to_vec(
            slice_subrange(req.path.as_slice(), files_p.len(), req.path.len()),
        );
        proof {
            assert(filename@ =~= req@.path.skip(files_prefix().len() as int));
        }
        return Route::FileRead { filename };
    }
    Route::NotFound
}

} // verus!
