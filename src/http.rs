use vstd::prelude::*;

use crate::text::{
    chars_of,
    eq_chars,
    append_str,
    push_decimal,
    decimal,
    push_char,
    to_upper,
    upper_of,
};

verus! {

/// A request method.
#[derive(Debug, Clone, Copy, PartialEq, Eq, Structural)]
pub enum Method {
    GET,
    POST,
    PUT,
    DELETE,
    HEAD,
    OPTIONS,
    CONNECT,
    TRACE,
    PATCH,
    UNKNOWN,
}

/// The method that an uppercased request-line token names.
pub open spec fn method_of_upper(u: Seq<char>) -> Method {
    if u == "GET"@ {
        Method::GET
    } else if u == "POST"@ {
        Method::POST
    } else if u == "PUT"@ {
        Method::PUT
    } else if u == "DELETE"@ {
        Method::DELETE
    } else if u == "HEAD"@ {
        Method::HEAD
    } else if u == "OPTIONS"@ {
        Method::OPTIONS
    } else if u == "CONNECT"@ {
        Method::CONNECT
    } else if u == "TRACE"@ {
        Method::TRACE
    } else if u == "PATCH"@ {
        Method::PATCH
    } else {
        Method::UNKNOWN
    }
}

/// The method that a request-line token names once uppercased, as
/// `str::to_uppercase` does it.
pub open spec fn method_of(t: Seq<char>) -> Method {
    method_of_upper(upper_of(t))
}

impl Method {
    /// The method an already uppercased token names.
    pub fn from_upper(u: &[char]) -> (r: Method)
        ensures
            r == method_of_upper(u@),
    {
        if eq_chars(u, chars_of("GET").as_slice()) {
            Method::GET
        } else if eq_chars(u, chars_of("POST").as_slice()) {
            Method::POST
        } else if eq_chars(u, chars_of("PUT").as_slice()) {
            Method::PUT
        } else if eq_chars(u, chars_of("DELETE").as_slice()) {
            Method::DELETE
        } else if eq_chars(u, chars_of("HEAD").as_slice()) {
            Method::HEAD
        } else if eq_chars(u, chars_of("OPTIONS").as_slice()) {
            Method::OPTIONS
        } else if eq_chars(u, chars_of("CONNECT").as_slice()) {
            Method::CONNECT
        } else if eq_chars(u, chars_of("TRACE").as_slice()) {
            Method::TRACE
        } else if eq_chars(u, chars_of("PATCH").as_slice()) {
            Method::PATCH
        } else {
            Method::UNKNOWN
        }
    }

    /// The method a request-line token names.
    pub fn parse(t: &str) -> (r: Method)
        ensures
            r == method_of(t@),
    {
        let u = to_upper(t);
        Method::from_upper(chars_of(u.as_str()).as_slice())
    }

    /// The method's name as written in a request line.
    pub fn name(&self) -> (r: &'static str)
        ensures
            r@ == method_name(*self),
    {
        match self {
            Method::GET => "GET",
            Method::POST => "POST",
            Method::PUT => "PUT",
            Method::DELETE => "DELETE",
            Method::HEAD => "HEAD",
            Method::OPTIONS => "OPTIONS",
            Method::CONNECT => "CONNECT",
            Method::TRACE => "TRACE",
            Method::PATCH => "PATCH",
            Method::UNKNOWN => "UNKNOWN",
        }
    }
}

pub open spec fn method_name(m: Method) -> Seq<char> {
    match m {
        Method::GET => "GET"@,
        Method::POST => "POST"@,
        Method::PUT => "PUT"@,
        Method::DELETE => "DELETE"@,
        Method::HEAD => "HEAD"@,
        Method::OPTIONS => "OPTIONS"@,
        Method::CONNECT => "CONNECT"@,
        Method::TRACE => "TRACE"@,
        Method::PATCH => "PATCH"@,
        Method::UNKNOWN => "UNKNOWN"@,
    }
}

impl<'a> From<&'a str> for Method {
    fn from(s: &'a str) -> (r: Method) {
        Method::parse(s)
    }
}

impl<'a> vstd::std_specs::convert::FromSpecImpl<&'a str> for Method {
    open spec fn obeys_from_spec() -> bool {
        true
    }

    open spec fn from_spec(s: &'a str) -> Method {
        method_of(s@)
    }
}

/// A protocol version.
#[derive(Debug, Clone, Copy, PartialEq, Eq, Structural)]
pub enum Version {
    HTTP1_0,
    HTTP1_1,
    UNKNOWN,
}

/// The version that a request-line token names; the match is exact.
pub open spec fn version_of(t: Seq<char>) -> Version {
    if t == "HTTP/1.1"@ {
        Version::HTTP1_1
    } else if t == "HTTP/1.0"@ {
        Version::HTTP1_0
    } else {
        Version::UNKNOWN
    }
}

/// The text a response writes for its version; an unknown version is
/// written as HTTP/1.1.
pub open spec fn version_text(v: Version) -> Seq<char> {
    match v {
        Version::HTTP1_0 => "HTTP/1.0"@,
        _ => "HTTP/1.1"@,
    }
}

impl Version {
    pub fn from_chars(t: &[char]) -> (r: Version)
        ensures
            r == version_of(t@),
    {
        if eq_chars(t, chars_of("HTTP/1.1").as_slice()) {
            Version::HTTP1_1
        } else if eq_chars(t, chars_of("HTTP/1.0").as_slice()) {
            Version::HTTP1_0
        } else {
            Version::UNKNOWN
        }
    }

    pub fn as_text(&self) -> (r: &'static str)
        ensures
            r@ == version_text(*self),
    {
        match self {
            Version::HTTP1_0 => "HTTP/1.0",
            _ => "HTTP/1.1",
        }
    }
}

impl<'a> From<&'a str> for Version {
    fn from(s: &'a str) -> (r: Version) {
        Version::from_chars(chars_of(s).as_slice())
    }
}

impl<'a> vstd::std_specs::convert::FromSpecImpl<&'a str> for Version {
    open spec fn obeys_from_spec() -> bool {
        true
    }

    open spec fn from_spec(s: &'a str) -> Version {
        version_of(s@)
    }
}

/// A response status.
#[derive(Debug, Clone, Copy, PartialEq, Eq, Structural)]
pub enum StatusCode {
    OK,
    Created,
    Accepted,
    NoContent,
    MovedPermanently,
    Found,
    TemporaryRedirect,
    PermanentRedirect,
    BadRequest,
    Unauthorized,
    Forbidden,
    NotFound,
    MethodNotAllowed,
    RequestTimeout,
    ContentTooLarge,
    UriTooLong,
    TooManyRequests,
    RequestHeaderFieldsTooLarge,
    InternalServerError,
    NotImplemented,
    BadGateway,
    ServiceUnavailable,
    GatewayTimeout,
}

pub open spec fn status_code(s: StatusCode) -> u16 {
    match s {
        StatusCode::OK => 200,
        StatusCode::Created => 201,
        StatusCode::Accepted => 202,
        StatusCode::NoContent => 204,
        StatusCode::MovedPermanently => 301,
        StatusCode::Found => 302,
        StatusCode::TemporaryRedirect => 307,
        StatusCode::PermanentRedirect => 308,
        StatusCode::BadRequest => 400,
        StatusCode::Unauthorized => 401,
        StatusCode::Forbidden => 403,
        StatusCode::NotFound => 404,
        StatusCode::MethodNotAllowed => 405,
        StatusCode::RequestTimeout => 408,
        StatusCode::ContentTooLarge => 413,
        StatusCode::UriTooLong => 414,
        StatusCode::TooManyRequests => 429,
        StatusCode::RequestHeaderFieldsTooLarge => 431,
        StatusCode::InternalServerError => 500,
        StatusCode::NotImplemented => 501,
        StatusCode::BadGateway => 502,
        StatusCode::ServiceUnavailable => 503,
        StatusCode::GatewayTimeout => 504,
    }
}

pub open spec fn reason(s: StatusCode) -> Seq<char> {
    match s {
        StatusCode::OK => "OK"@,
        StatusCode::Created => "Created"@,
        StatusCode::Accepted => "Accepted"@,
        StatusCode::NoContent => "No Content"@,
        StatusCode::MovedPermanently => "Moved Permanently"@,
        StatusCode::Found => "Found"@,
        StatusCode::TemporaryRedirect => "Temporary Redirect"@,
        StatusCode::PermanentRedirect => "Permanent Redirect"@,
        StatusCode::BadRequest => "Bad Request"@,
        StatusCode::Unauthorized => "Unauthorized"@,
        StatusCode::Forbidden => "Forbidden"@,
        StatusCode::NotFound => "Not Found"@,
        StatusCode::MethodNotAllowed => "Method Not Allowed"@,
        StatusCode::RequestTimeout => "Request Timeout"@,
        StatusCode::ContentTooLarge => "Content Too Large"@,
        StatusCode::UriTooLong => "URI Too Long"@,
        StatusCode::TooManyRequests => "Too Many Requests"@,
        StatusCode::RequestHeaderFieldsTooLarge => "Request Header Fields Too Large"@,
        StatusCode::InternalServerError => "Internal Server Error"@,
        StatusCode::NotImplemented => "Not Implemented"@,
        StatusCode::BadGateway => "Bad Gateway"@,
        StatusCode::ServiceUnavailable => "Service Unavailable"@,
        StatusCode::GatewayTimeout => "Gateway Timeout"@,
    }
}

/// The code and reason separated by a space, as in "404 Not Found".
pub open spec fn status_line_text(s: StatusCode) -> Seq<char> {
    decimal(status_code(s) as nat).push(' ') + reason(s)
}

impl StatusCode {
    pub fn code(&self) -> (r: u16)
        ensures
            r == status_code(*self),
    {
        match self {
            StatusCode::OK => 200,
            StatusCode::Created => 201,
            StatusCode::Accepted => 202,
            StatusCode::NoContent => 204,
            StatusCode::MovedPermanently => 301,
            StatusCode::Found => 302,
            StatusCode::TemporaryRedirect => 307,
            StatusCode::PermanentRedirect => 308,
            StatusCode::BadRequest => 400,
            StatusCode::Unauthorized => 401,
            StatusCode::Forbidden => 403,
            StatusCode::NotFound => 404,
            StatusCode::MethodNotAllowed => 405,
            StatusCode::RequestTimeout => 408,
            StatusCode::ContentTooLarge => 413,
            StatusCode::UriTooLong => 414,
            StatusCode::TooManyRequests => 429,
            StatusCode::RequestHeaderFieldsTooLarge => 431,
            StatusCode::InternalServerError => 500,
            StatusCode::NotImplemented => 501,
            StatusCode::BadGateway => 502,
            StatusCode::ServiceUnavailable => 503,
            StatusCode::GatewayTimeout => 504,
        }
    }

    pub fn reason_phrase(&self) -> (r: &'static str)
        ensures
            r@ == reason(*self),
    {
        match self {
            StatusCode::OK => "OK",
            StatusCode::Created => "Created",
            StatusCode::Accepted => "Accepted",
            StatusCode::NoContent => "No Content",
            StatusCode::MovedPermanently => "Moved Permanently",
            StatusCode::Found => "Found",
            StatusCode::TemporaryRedirect => "Temporary Redirect",
            StatusCode::PermanentRedirect => "Permanent Redirect",
            StatusCode::BadRequest => "Bad Request",
            StatusCode::Unauthorized => "Unauthorized",
            StatusCode::Forbidden => "Forbidden",
            StatusCode::NotFound => "Not Found",
            StatusCode::MethodNotAllowed => "Method Not Allowed",
            StatusCode::RequestTimeout => "Request Timeout",
            StatusCode::ContentTooLarge => "Content Too Large",
            StatusCode::UriTooLong => "URI Too Long",
            StatusCode::TooManyRequests => "Too Many Requests",
            StatusCode::RequestHeaderFieldsTooLarge => "Request Header Fields Too Large",
            StatusCode::InternalServerError => "Internal Server Error",
            StatusCode::NotImplemented => "Not Implemented",
            StatusCode::BadGateway => "Bad Gateway",
            StatusCode::ServiceUnavailable => "Service Unavailable",
            StatusCode::GatewayTimeout => "Gateway Timeout",
        }
    }

    /// The code and the reason phrase, as in "404 Not Found".
    pub fn status_text(&self) -> (r: String)
        ensures
            r@ == status_line_text(*self),
    {
        let mut r = String::new();
        push_decimal(&mut r, self.code() as u64);
        push_char(&mut r, ' ');
        append_str(&mut r, self.reason_phrase());
        assert(r@ =~= status_line_text(*self));
        r
    }
}

} // verus!
