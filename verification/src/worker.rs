//! The decision core of a connection worker. The caller owns the I/O: it
//! reads the raw request bytes, hands them here, performs the one file
//! operation the returned step may ask for, and writes the encoded
//! response back. Every step is a pure function of the bytes of that one
//! connection, so concurrent workers cannot contaminate each other.
use vstd::prelude::*;

verus! {

use crate::request::parse_spec;
use crate::request::parse_request;
use crate::request::content_length_of;
use crate::request::tail_of;
use crate::request::Method;
use crate::text::contains_sub;
use crate::text::contains_sub_bytes;
use crate::lit::head_end;
use crate::lit::head_end_bytes;
use crate::lit::h_content_length_bytes;
use crate::request::first_header_value;
use crate::digits::parse_dec_bytes;
use crate::response::Response;
use crate::response::RespModel;
use crate::response::Status;
use crate::router::Route;
use crate::router::RouteModel;
use crate::router::route_spec;
use crate::router::route;
use crate::handlers::empty_response_spec;
use crate::handlers::empty_response;
use crate::handlers::echo_response_spec;
use crate::handlers::echo_response;
use crate::handlers::user_agent_response_spec;
use crate::handlers::user_agent_response;
use crate::handlers::file_read_response_spec;
use crate::handlers::file_read_response;
use crate::handlers::file_write_response_spec;
use crate::handlers::file_write_response;

/// The mathematical model of a worker step.
#[verifier::ext_equal]
pub ghost enum StepModel {
    CloseSilently,
    Respond { response: RespModel },
    ReadFile { filename: Seq<u8> },
    WriteFile { filename: Seq<u8>, data: Seq<u8> },
}

/// What a worker does next with one request: close without answering (the
/// peer sent nothing), answer at once, or first read or write one file
/// under the storage root and then answer through [`finish_file_read`] or
/// [`finish_file_write`].
pub enum Step {
    CloseSilently,
    Respond { response: Response },
    ReadFile { filename: Vec<u8> },
    WriteFile { filename: Vec<u8>, data: Vec<u8> },
}

impl View for Step {
    type V = StepModel;

    open spec fn view(&self) -> StepModel {
        match self {
            Step::CloseSilently => StepModel::CloseSilently,
            Step::Respond { response } => StepModel::Respond { response: response@ },
            Step::ReadFile { filename } => StepModel::ReadFile { filename: filename@ },
            Step::WriteFile { filename, data } => StepModel::WriteFile {
                filename: filename@,
                data: data@,
            },
        }
    }
}

/// The step a worker takes on the raw bytes of one request: nothing on an
/// empty read, a bare 400 on a parse failure, and otherwise the matched
/// route's response — the echo or user-agent response, a bare 200 for the
/// root, a bare 404 for an unknown route, a bare 400 for a rejected
/// request, a bare 500 for a file write without a configured storage root,
/// and a file operation for the file routes, a write carrying the parsed
/// body (already truncated to the declared `Content-Length`).
pub open spec fn step_spec(raw: Seq<u8>, storage_configured: bool) -> StepModel {
    if raw.len() == 0 {
        StepModel::CloseSilently
    } else {
        match parse_spec(raw) {
            None => StepModel::Respond { response: empty_response_spec(Status::BadRequest) },
            Some(req) => match route_spec(req) {
                RouteModel::Root => StepModel::Respond {
                    response: empty_response_spec(Status::Okay),
                },
                RouteModel::Echo { value, accepts_gzip } => StepModel::Respond {
                    response: echo_response_spec(value, accepts_gzip),
                },
                RouteModel::UserAgent { value } => StepModel::Respond {
                    response: user_agent_response_spec(value),
                },
                RouteModel::FileRead { filename } => StepModel::ReadFile { filename },
                RouteModel::FileWrite { filename, declared_len } => {
                    if storage_configured {
                        StepModel::WriteFile { filename, data: req.body }
                    } else {
                        StepModel::Respond {
                            response: empty_response_spec(Status::InternalServerError),
                        }
                    }
                },
                RouteModel::NotFound => StepModel::Respond {
                    response: empty_response_spec(Status::NotFound),
                },
                RouteModel::BadRequest => StepModel::Respond {
                    response: empty_response_spec(Status::BadRequest),
                },
            },
        }
    }
}

/// Decides the worker's step on one request, as [`step_spec`] describes.
pub fn handle_request(raw: &[u8], storage_configured: bool) -> (s: Step)
    ensures
        s@ == step_spec(raw@, storage_configured),
{
    if raw.len() == 0 {
        return Step::CloseSilently;
    }
    let req = match parse_request(raw) {
        Some(req) => req,
        None => {
            return Step::Respond { response: empty_response(Status::BadRequest) };
        },
    };
    match route(&req) {
        Route::Root => Step::Respond { response: empty_response(Status::Okay) },
        Route::Echo { value, accepts_gzip } => Step::Respond {
            response: echo_response(value.as_slice(), accepts_gzip),
        },
        Route::UserAgent { value } => Step::Respond {
            response: user_agent_response(value.as_slice()),
        },
        Route::FileRead { filename } => Step::ReadFile { filename },
        Route::FileWrite { filename, declared_len: _ } => {
            if storage_configured {
                Step::WriteFile { filename, data: req.body }
            } else {
                Step::Respond { response: empty_response(Status::InternalServerError) }
            }
        },
        Route::NotFound => Step::Respond { response: empty_response(Status::NotFound) },
        Route::BadRequest => Step::Respond { response: empty_response(Status::BadRequest) },
    }
}

/// The bytes read so far form a whole request: the header block has ended,
/// and a well-formed POST has received its declared body length. A request
/// that will parse as malformed is complete as soon as its header block
/// ends, since its answer needs nothing more.
pub open spec fn request_complete_spec(raw: Seq<u8>) -> bool {
    contains_sub(raw, head_end()) && match parse_spec(raw) {
        Some(req) => req.method != Method::Post || (match content_length_of(req.headers) {
            Some(n) => tail_of(raw).len() >= n,
            None => true,
        }),
        None => true,
    }
}

/// Decides whether the caller has read a whole request and may stop
/// reading, as [`request_complete_spec`] describes.
pub fn request_complete(raw: &[u8]) -> (r: bool)
    ensures
        r == request_complete_spec(raw@),
{
    let head_end_pat = head_end_bytes();
    if !contains_sub_bytes(raw, head_end_pat.as_slice()) {
        return false;
    }
    match parse_request(raw) {
        Some(req) => {
            if req.method != Method::Post {
                return true;
            }
            let cl_name = h_content_length_bytes();
            match first_header_value(&req.headers, cl_name.as_slice()) {
                Some(v) => {
                    match parse_dec_bytes(v.as_slice()) {
                        Some(n) => n <= req.body.len() as u64,
                        None => true,
                    }
                },
                None => true,
            }
        },
        None => true,
    }
}

/// Turns the outcome of the file read a [`Step::ReadFile`] asked for into
/// the worker's response; `None` stands for any read failure.
pub fn finish_file_read(outcome: Option<Vec<u8>>) -> (r: Response)
    ensures
        r@ == file_read_response_spec(
            match outcome {
                Some(b) => Some(b@),
                None => None,
            },
        ),
{
    file_read_response(outcome)
}

/// Turns the outcome of the file write a [`Step::WriteFile`] asked for
/// into the worker's response.
pub fn finish_file_write(ok: bool) -> (r: Response)
    ensures
        r@ == file_write_response_spec(ok),
{
    file_write_response(ok)
}

} // verus!
