use vstd::prelude::*;
use vstd::utf8::*;

use crate::headers::{HeaderSeq, header_insert};
use crate::http::{StatusCode, Version};
use crate::response::{Response, default_headers};
use crate::text::{append_str, decimal};

verus! {

/// The kind of a transport failure.
#[derive(Debug, Clone, Copy, PartialEq, Eq, Structural)]
pub enum IoKind {
    TimedOut,
    UnexpectedEof,
    ConnectionReset,
    ConnectionAborted,
    BrokenPipe,
    InvalidData,
    Other,
}

/// What can go wrong while serving.
#[derive(Debug)]
pub enum ServerError {
    /// Transport failure (network, file system)
    Io(IoKind),
    /// Protocol error (unsupported feature)
    Http(String),
    /// Configuration error (invalid settings, missing files)
    Config(String),
    /// Resource not found
    NotFound(String),
    /// Malformed request line or headers
    HttpParse(String),
    /// Too many connections at once
    ServerBusy,
    /// Access denied
    Forbidden(String),
    /// The client was too slow
    Timeout(String),
    /// Anything else, with a message
    Other(String),
}

} // verus!

verus! {

#[verifier::external_type_specification]
#[verifier::external_body]
pub struct ExYamlError(serde_yml::Error);

/// Relies on the `Display` impl of `serde_yml::Error` for its message.
#[verifier::external_body]
fn yaml_error_text(e: &serde_yml::Error) -> String {
    e.to_string()
}

pub open spec fn io_kind_text(k: IoKind) -> Seq<char> {
    match k {
        IoKind::TimedOut => "timed out"@,
        IoKind::UnexpectedEof => "unexpected end of file"@,
        IoKind::ConnectionReset => "connection reset"@,
        IoKind::ConnectionAborted => "connection aborted"@,
        IoKind::BrokenPipe => "broken pipe"@,
        IoKind::InvalidData => "invalid data"@,
        IoKind::Other => "other error"@,
    }
}

/// The message that describes an error.
pub open spec fn error_message(e: ServerError) -> Seq<char> {
    match e {
        ServerError::Io(k) => "I/O error: "@ + io_kind_text(k),
        ServerError::Http(m) => "HTTP error: "@ + m@,
        ServerError::Config(m) => "Configuration error: "@ + m@,
        ServerError::NotFound(p) => "Not found: "@ + p@,
        ServerError::HttpParse(m) => "Error parsing HTTP request: "@ + m@,
        ServerError::ServerBusy => "Server is too busy to handle the request"@,
        ServerError::Forbidden(m) => "Access denied: "@ + m@,
        ServerError::Timeout(m) => "Request timeout: "@ + m@,
        ServerError::Other(m) => m@,
    }
}

impl IoKind {
    pub fn text(&self) -> (r: &'static str)
        ensures
            r@ == io_kind_text(*self),
    {
        match self {
            IoKind::TimedOut => "timed out",
            IoKind::UnexpectedEof => "unexpected end of file",
            IoKind::ConnectionReset => "connection reset",
            IoKind::ConnectionAborted => "connection aborted",
            IoKind::BrokenPipe => "broken pipe",
            IoKind::InvalidData => "invalid data",
            IoKind::Other => "other error",
        }
    }
}

fn joined(prefix: &str, rest: &str) -> (r: String)
    ensures
        r@ == prefix@ + rest@,
{
    let mut r = String::from_str(prefix);
    append_str(&mut r, rest);
    r
}

impl ServerError {
    /// The error's message.
    pub fn to_string(&self) -> (r: String)
        ensures
            r@ == error_message(*self),
    {
        match self {
            ServerError::Io(k) => joined("I/O error: ", k.text()),
            ServerError::Http(m) => joined("HTTP error: ", m.as_str()),
            ServerError::Config(m) => joined("Configuration error: ", m.as_str()),
            ServerError::NotFound(p) => joined("Not found: ", p.as_str()),
            ServerError::HttpParse(m) => joined("Error parsing HTTP request: ", m.as_str()),
            ServerError::ServerBusy => String::from_str("Server is too busy to handle the request"),
            ServerError::Forbidden(m) => joined("Access denied: ", m.as_str()),
            ServerError::Timeout(m) => joined("Request timeout: ", m.as_str()),
            ServerError::Other(m) => m.clone(),
        }
    }

    /// A configuration error that carries a YAML error's message.
    pub fn from_yaml(e: &serde_yml::Error) -> (r: ServerError)
        ensures
            r matches ServerError::Config(m) && m@.len() >= "YAML parsing error: "@.len()
                && m@.subrange(0, "YAML parsing error: "@.len() as int) == "YAML parsing error: "@,
    {
        let text = yaml_error_text(e);
        let m = joined("YAML parsing error: ", text.as_str());
        assert(m@.subrange(0, "YAML parsing error: "@.len() as int) =~= "YAML parsing error: "@);
        ServerError::Config(m)
    }
}

/// The status that answers an error.
pub open spec fn error_status(e: ServerError) -> StatusCode {
    match e {
        ServerError::NotFound(_) => StatusCode::NotFound,
        ServerError::Forbidden(_) => StatusCode::Forbidden,
        ServerError::ServerBusy => StatusCode::ServiceUnavailable,
        ServerError::HttpParse(_) => StatusCode::BadRequest,
        ServerError::Timeout(_) => StatusCode::RequestTimeout,
        _ => StatusCode::InternalServerError,
    }
}

/// The HTML page that answers an error.
pub open spec fn error_page(e: ServerError) -> Seq<char> {
    match e {
        ServerError::NotFound(p) => not_found_page(p@),
        ServerError::Forbidden(m) => "<!DOCTYPE html>\n<html>\n<head><title>403 Forbidden</title></head>\n<body>\n<h1>403 Forbidden</h1>\n<p>Access denied: "@
            + m@ + "</p>\n</body>\n</html>"@,
        ServerError::ServerBusy => "<!DOCTYPE html>\n<html>\n<head><title>503 Service Unavailable</title></head>\n<body>\n<h1>503 Service Unavailable</h1>\n<p>The server is currently unable to handle the request due to temporary overloading.</p>\n</body>\n</html>"@,
        ServerError::HttpParse(m) => bad_request_page(m@),
        ServerError::Timeout(m) => "<!DOCTYPE html>\n<html>\n<head><title>408 Request Timeout</title></head>\n<body>\n<h1>408 Request Timeout</h1>\n<p>The request timed out: "@
            + m@ + "</p>\n</body>\n</html>"@,
        _ => "<!DOCTYPE html>\n<html>\n<head><title>500 Internal Server Error</title></head>\n<body>\n<h1>500 Internal Server Error</h1>\n<p>The server encountered an unexpected condition that prevented it from fulfilling the request.</p>\n</body>\n</html>"@,
    }
}

/// The page that answers a request for a resource that is not there.
pub open spec fn not_found_page(p: Seq<char>) -> Seq<char> {
    "<!DOCTYPE html>\n<html>\n<head><title>404 Not Found</title></head>\n<body>\n<h1>404 Not Found</h1>\n<p>The requested resource '"@
        + p + "' was not found on this server.</p>\n</body>\n</html>"@
}

/// The page that answers a request the server could not read.
pub open spec fn bad_request_page(m: Seq<char>) -> Seq<char> {
    "<!DOCTYPE html>\n<html>\n<head><title>400 Bad Request</title></head>\n<body>\n<h1>400 Bad Request</h1>\n<p>The server could not understand your request: "@
        + m + "</p>\n</body>\n</html>"@
}

/// The headers of an HTML page: the defaults, `text/html` and its length.
pub open spec fn page_headers(text: Seq<char>) -> HeaderSeq {
    header_insert(
        header_insert(default_headers(), "Content-Type"@, "text/html"@),
        "Content-Length"@,
        decimal(encode_utf8(text).len() as nat),
    )
}

/// The headers of the page that answers an error, with `Retry-After: 60`
/// for a busy server.
pub open spec fn error_headers(e: ServerError) -> HeaderSeq {
    let h = page_headers(error_page(e));
    if e is ServerBusy {
        header_insert(h, "Retry-After"@, "60"@)
    } else {
        h
    }
}

fn page(open: &str, middle: &str, close: &str) -> (r: String)
    ensures
        r@ == open@ + middle@ + close@,
{
    let mut r = String::from_str(open);
    append_str(&mut r, middle);
    append_str(&mut r, close);
    r
}

/// The response that tells a client about an error.
pub fn error_to_response(error: &ServerError) -> (r: Response)
    ensures
        r.version == Version::HTTP1_1,
        r.status == error_status(*error),
        r.headers@ == error_headers(*error),
        r.body@ == encode_utf8(error_page(*error)),
{
    let base = Response::new().with_status(StatusCode::InternalServerError).with_content_type(
        "text/html",
    );
    match error {
        ServerError::NotFound(p) => {
            let text = page(
                "<!DOCTYPE html>\n<html>\n<head><title>404 Not Found</title></head>\n<body>\n<h1>404 Not Found</h1>\n<p>The requested resource '",
                p.as_str(),
                "' was not found on this server.</p>\n</body>\n</html>",
            );
            base.with_status(StatusCode::NotFound).with_text(text.as_str())
        },
        ServerError::Forbidden(m) => {
            let text = page(
                "<!DOCTYPE html>\n<html>\n<head><title>403 Forbidden</title></head>\n<body>\n<h1>403 Forbidden</h1>\n<p>Access denied: ",
                m.as_str(),
                "</p>\n</body>\n</html>",
            );
            base.with_status(StatusCode::Forbidden).with_text(text.as_str())
        },
        ServerError::ServerBusy => {
            base.with_status(StatusCode::ServiceUnavailable).with_text(
                "<!DOCTYPE html>\n<html>\n<head><title>503 Service Unavailable</title></head>\n<body>\n<h1>503 Service Unavailable</h1>\n<p>The server is currently unable to handle the request due to temporary overloading.</p>\n</body>\n</html>",
            ).with_header("Retry-After", "60")
        },
        ServerError::HttpParse(m) => {
            let text = page(
                "<!DOCTYPE html>\n<html>\n<head><title>400 Bad Request</title></head>\n<body>\n<h1>400 Bad Request</h1>\n<p>The server could not understand your request: ",
                m.as_str(),
                "</p>\n</body>\n</html>",
            );
            base.with_status(StatusCode::BadRequest).with_text(text.as_str())
        },
        ServerError::Timeout(m) => {
            let text = page(
                "<!DOCTYPE html>\n<html>\n<head><title>408 Request Timeout</title></head>\n<body>\n<h1>408 Request Timeout</h1>\n<p>The request timed out: ",
                m.as_str(),
                "</p>\n</body>\n</html>",
            );
            base.with_status(StatusCode::RequestTimeout).with_text(text.as_str())
        },
        _ => base.with_text(
            "<!DOCTYPE html>\n<html>\n<head><title>500 Internal Server Error</title></head>\n<body>\n<h1>500 Internal Server Error</h1>\n<p>The server encountered an unexpected condition that prevented it from fulfilling the request.</p>\n</body>\n</html>",
        ),
    }
}

} // verus!
