use vstd::prelude::*;

use crate::config::ServerConfig;
use crate::error::{ServerError, error_headers, error_page, error_to_response};
use crate::headers::header_insert;
use crate::http::{Method, StatusCode, Version, status_line_text};
use crate::request::Request;
use crate::response::{Response, default_headers, wire};
use crate::static_handler::{StaticFileHandler, answers, bytes_of, joined_path, normalized_path};
use crate::text::decimal;

verus! {

/// Relies on `num_cpus::get`: the number of logical CPUs, which its
/// documentation says is always at least 1.
#[verifier::external_body]
fn logical_cpus() -> (r: usize)
    ensures
        r >= 1,
{
    num_cpus::get()
}

/// Worker threads: the configured number, or two per CPU.
pub open spec fn workers_for(configured: Option<usize>, cpus: usize) -> usize {
    match configured {
        Some(n) => n,
        None => if cpus * 2 <= usize::MAX {
            (cpus * 2) as usize
        } else {
            usize::MAX
        },
    }
}

pub fn worker_count(configured: Option<usize>, cpus: usize) -> (r: usize)
    ensures
        r == workers_for(configured, cpus),
{
    match configured {
        Some(n) => n,
        None => if cpus <= usize::MAX / 2 {
            cpus * 2
        } else {
            usize::MAX
        },
    }
}

/// The worker threads a configuration asks for, counting this machine's
/// CPUs when it names no number.
pub fn configured_workers(config: &ServerConfig) -> (r: usize)
    ensures
        config.thread_count matches Some(n) ==> r == n,
        config.thread_count is None ==> r >= 2 && exists|cpus: usize|
            cpus >= 1 && r == workers_for(None, cpus),
{
    match config.thread_count {
        Some(n) => n,
        None => worker_count(None, logical_cpus()),
    }
}

/// A pool always has at least one worker.
pub fn pool_size(requested: usize) -> (r: usize)
    ensures
        r == (if requested > 0 {
            requested
        } else {
            1
        }),
{
    if requested > 0 {
        requested
    } else {
        1
    }
}

/// The bytes written on a socket refused for want of capacity: the 503 page
/// with `Retry-After: 60`.
pub fn capacity_rejection() -> (r: Vec<u8>)
    ensures
        r@ == wire(
            Version::HTTP1_1,
            StatusCode::ServiceUnavailable,
            error_headers(ServerError::ServerBusy),
            vstd::utf8::encode_utf8(error_page(ServerError::ServerBusy)),
        ),
{
    let mut out: Vec<u8> = Vec::new();
    let _ = error_to_response(&ServerError::ServerBusy).write_to(&mut out);
    out
}

/// The answer to a method other than GET and HEAD.
pub open spec fn not_allowed_headers() -> crate::headers::HeaderSeq {
    header_insert(
        header_insert(default_headers(), "Allow"@, "GET, HEAD"@),
        "Content-Length"@,
        decimal(vstd::utf8::encode_utf8(status_line_text(StatusCode::MethodNotAllowed)).len() as nat),
    )
}

pub fn method_not_allowed() -> (r: Response)
    ensures
        r.version == Version::HTTP1_1,
        r.status == StatusCode::MethodNotAllowed,
        r.headers@ == not_allowed_headers(),
        r.body@ == vstd::utf8::encode_utf8(status_line_text(StatusCode::MethodNotAllowed)),
{
    let text = StatusCode::MethodNotAllowed.status_text();
    Response::new().with_status(StatusCode::MethodNotAllowed).with_header("Allow", "GET, HEAD").with_text(
        text.as_str(),
    )
}

/// Routes a request: GET and HEAD are served from the document root, any
/// other method is not allowed.
pub fn route<F: FnOnce(String) -> Option<Vec<u8>>>(
    handler: &StaticFileHandler,
    request: &Request,
    read_file: F,
) -> (r: Response)
    requires
        forall|p: String| read_file.requires((p,)),
    ensures
        request.method == Method::GET || request.method == Method::HEAD ==> exists|
            p: String,
            c: Option<Vec<u8>>,
        |
            p@ == joined_path(handler.root(), normalized_path(request.path@, handler.index()))
                && read_file.ensures((p,), c) && answers(
                handler.root(),
                handler.index(),
                request.path@,
                bytes_of(c),
                r,
            ),
        !(request.method == Method::GET || request.method == Method::HEAD) ==> r.version
            == Version::HTTP1_1 && r.status == StatusCode::MethodNotAllowed && r.headers@
            == not_allowed_headers() && r.body@ == vstd::utf8::encode_utf8(
            status_line_text(StatusCode::MethodNotAllowed),
        ),
{
    match request.method {
        Method::GET | Method::HEAD => handler.serve(request.path.as_str(), read_file),
        _ => method_not_allowed(),
    }
}

} // verus!
