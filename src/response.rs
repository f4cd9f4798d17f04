use vstd::prelude::*;
use vstd::utf8::*;

use crate::error::ServerError;
use crate::headers::{HeaderMap, HeaderSeq, header_insert};
use crate::http::{StatusCode, Version, reason, status_code, version_text};
use crate::text::{append_bytes, append_str, decimal, decimal_string, push_decimal, utf8_bytes};

verus! {

/// A response: status line, headers and body.
pub struct Response {
    pub version: Version,
    pub status: StatusCode,
    pub headers: HeaderMap,
    pub body: Vec<u8>,
}

/// The headers every new response starts with.
pub open spec fn default_headers() -> HeaderSeq {
    header_insert(
        header_insert(Seq::empty(), "Content-Type"@, "text/html"@),
        "Server"@,
        "Xener/0.0.1"@,
    )
}

/// `"name: value\r\n"` for every entry, in order.
pub open spec fn header_lines(h: HeaderSeq) -> Seq<char>
    decreases h.len(),
{
    if h.len() == 0 {
        Seq::empty()
    } else {
        header_lines(h.drop_last()) + h.last().0 + ": "@ + h.last().1 + "\r\n"@
    }
}

/// `"<version> <code> <reason>\r\n"`.
pub open spec fn status_line(v: Version, s: StatusCode) -> Seq<char> {
    version_text(v) + " "@ + decimal(status_code(s) as nat) + " "@ + reason(s) + "\r\n"@
}

/// Everything before the body: the status line, the header lines and a
/// blank line.
pub open spec fn head_text(v: Version, s: StatusCode, h: HeaderSeq) -> Seq<char> {
    status_line(v, s) + header_lines(h) + "\r\n"@
}

/// The bytes that a response puts on the wire.
pub open spec fn wire(v: Version, s: StatusCode, h: HeaderSeq, body: Seq<u8>) -> Seq<u8> {
    encode_utf8(head_text(v, s, h)) + body
}

impl Response {
    pub open spec fn wire_bytes(&self) -> Seq<u8> {
        wire(self.version, self.status, self.headers@, self.body@)
    }

    pub fn new() -> (r: Response)
        ensures
            r.version == Version::HTTP1_1,
            r.status == StatusCode::OK,
            r.headers@ == default_headers(),
            r.body@ == Seq::<u8>::empty(),
    {
        let mut headers = HeaderMap::new();
        headers.insert(String::from_str("Content-Type"), String::from_str("text/html"));
        headers.insert(String::from_str("Server"), String::from_str("Xener/0.0.1"));
        Response { version: Version::HTTP1_1, status: StatusCode::OK, headers, body: Vec::new() }
    }

    pub fn with_status(self, status: StatusCode) -> (r: Response)
        ensures
            r.version == self.version,
            r.status == status,
            r.headers@ == self.headers@,
            r.body@ == self.body@,
    {
        let mut r = self;
        r.status = status;
        r
    }

    pub fn with_header(self, name: &str, value: &str) -> (r: Response)
        ensures
            r.version == self.version,
            r.status == self.status,
            r.headers@ == header_insert(self.headers@, name@, value@),
            r.body@ == self.body@,
    {
        let mut r = self;
        r.headers.insert(String::from_str(name), String::from_str(value));
        r
    }

    /// Sets the body, and `Content-Length` to its length.
    pub fn with_body(self, body: Vec<u8>) -> (r: Response)
        ensures
            r.version == self.version,
            r.status == self.status,
            r.headers@ == header_insert(
                self.headers@,
                "Content-Length"@,
                decimal(body@.len() as nat),
            ),
            r.body@ == body@,
    {
        let mut r = self;
        let len = decimal_string(body.len() as u64);
        r.headers.insert(String::from_str("Content-Length"), len);
        r.body = body;
        r
    }

    /// Sets the body to the UTF-8 bytes of `text`.
    pub fn with_text(self, text: &str) -> (r: Response)
        ensures
            r.version == self.version,
            r.status == self.status,
            r.headers@ == header_insert(
                self.headers@,
                "Content-Length"@,
                decimal(encode_utf8(text@).len() as nat),
            ),
            r.body@ == encode_utf8(text@),
    {
        self.with_body(utf8_bytes(text))
    }

    pub fn with_content_type(self, content_type: &str) -> (r: Response)
        ensures
            r.version == self.version,
            r.status == self.status,
            r.headers@ == header_insert(self.headers@, "Content-Type"@, content_type@),
            r.body@ == self.body@,
    {
        let mut r = self;
        r.headers.insert(String::from_str("Content-Type"), String::from_str(content_type));
        r
    }

    /// Appends the response's wire form to `out`: the status line, each
    /// header as `name: value`, a blank line and the body. Writing to memory
    /// does not fail.
    pub fn write_to(&self, out: &mut Vec<u8>) -> (r: Result<(), ServerError>)
        ensures
            r is Ok,
            final(out)@ == old(out)@ + self.wire_bytes(),
    {
        let mut head = String::new();
        append_str(&mut head, self.version.as_text());
        append_str(&mut head, " ");
        push_decimal(&mut head, self.status.code() as u64);
        append_str(&mut head, " ");
        append_str(&mut head, self.status.reason_phrase());
        append_str(&mut head, "\r\n");
        let ghost first = head@;
        let mut i: usize = 0;
        while i < self.headers.len()
            invariant
                i <= self.headers@.len(),
                head@ == first + header_lines(self.headers@.subrange(0, i as int)),
            decreases self.headers@.len() - i,
        {
            let (name, value) = self.headers.entry(i);
            append_str(&mut head, name.as_str());
            append_str(&mut head, ": ");
            append_str(&mut head, value.as_str());
            append_str(&mut head, "\r\n");
            i = i + 1;
            assert(self.headers@.subrange(0, i as int).drop_last() =~= self.headers@.subrange(
                0,
                i - 1,
            ));
            assert(head@ =~= first + header_lines(self.headers@.subrange(0, i as int)));
        }
        append_str(&mut head, "\r\n");
        assert(self.headers@.subrange(0, self.headers@.len() as int) =~= self.headers@);
        assert(head@ =~= head_text(self.version, self.status, self.headers@));
        append_bytes(out, head.as_str().as_bytes());
        append_bytes(out, self.body.as_slice());
        assert(final(out)@ =~= old(out)@ + self.wire_bytes());
        Ok(())
    }

    /// Says whether the connection stays open: `Connection: keep-alive` and
    /// a `Keep-Alive` header with the parameters given, or
    /// `Connection: close`.
    pub fn with_keep_alive(self, keep_alive: bool, timeout: Option<u64>, max: Option<usize>) -> (r:
        Response)
        ensures
            r.version == self.version,
            r.status == self.status,
            r.headers@ == keep_alive_headers(self.headers@, keep_alive, timeout, max),
            r.body@ == self.body@,
    {
        if !keep_alive {
            return self.with_header("Connection", "close");
        }
        let r = self.with_header("Connection", "keep-alive");
        let mut value = String::new();
        match timeout {
            Some(t) => {
                append_str(&mut value, "timeout=");
                push_decimal(&mut value, t);
            },
            None => {},
        }
        match max {
            Some(m) => {
                if timeout.is_some() {
                    append_str(&mut value, ", ");
                }
                append_str(&mut value, "max=");
                push_decimal(&mut value, m as u64);
            },
            None => {},
        }
        if timeout.is_none() && max.is_none() {
            return r;
        }
        assert(value@ =~= keep_alive_value(timeout, max));
        let mut r = r;
        r.headers.insert(String::from_str("Keep-Alive"), value);
        r
    }

    /// Lets caches keep the response for `max_age` seconds.
    pub fn with_cache_control(self, max_age: u64) -> (r: Response)
        ensures
            r.version == self.version,
            r.status == self.status,
            r.headers@ == header_insert(
                self.headers@,
                "Cache-Control"@,
                "max-age="@ + decimal(max_age as nat),
            ),
            r.body@ == self.body@,
    {
        let mut value = String::from_str("max-age=");
        push_decimal(&mut value, max_age);
        let mut r = self;
        r.headers.insert(String::from_str("Cache-Control"), value);
        r
    }
}

/// The parameters of a `Keep-Alive` header, as in `timeout=5, max=99`.
pub open spec fn keep_alive_value(timeout: Option<u64>, max: Option<usize>) -> Seq<char> {
    match (timeout, max) {
        (Some(t), Some(m)) => "timeout="@ + decimal(t as nat) + ", "@ + "max="@ + decimal(m as nat),
        (Some(t), None) => "timeout="@ + decimal(t as nat),
        (None, Some(m)) => "max="@ + decimal(m as nat),
        (None, None) => Seq::empty(),
    }
}

pub open spec fn keep_alive_headers(
    h: HeaderSeq,
    keep_alive: bool,
    timeout: Option<u64>,
    max: Option<usize>,
) -> HeaderSeq {
    if keep_alive {
        let h1 = header_insert(h, "Connection"@, "keep-alive"@);
        if timeout is None && max is None {
            h1
        } else {
            header_insert(h1, "Keep-Alive"@, keep_alive_value(timeout, max))
        }
    } else {
        header_insert(h, "Connection"@, "close"@)
    }
}

} // verus!
