use vstd::prelude::*;
use vstd::utf8::*;

use crate::error::{IoKind, ServerError};
use crate::headers::{HeaderMap, HeaderSeq, header_insert, lookup};
use crate::http::{Method, Version, method_of, version_of};
use crate::text::{
    chars_of,
    contains,
    contains_chars,
    occurs_at_index,
    split_chars,
    decode_utf8_bytes,
    find_char,
    find_char_from,
    lower_of,
    to_lower,
    parse_unsigned,
    parse_unsigned_chars,
    slice_range,
    split_on,
    split_words,
    starts_with,
    string_of,
    trim,
    trim_chars,
    words,
};

verus! {

/// A parsed request.
pub struct Request {
    pub method: Method,
    pub path: String,
    pub version: Version,
    pub headers: HeaderMap,
    pub body: Vec<u8>,
}

/// The end of the line that starts at `i`: just past its `\n`, or the end of
/// the data (as `read_line` reads it).
pub open spec fn line_end(d: Seq<u8>, i: int) -> int
    decreases d.len() - i,
{
    if 0 <= i < d.len() {
        if d[i] == 10u8 {
            i + 1
        } else {
            line_end(d, i + 1)
        }
    } else {
        i
    }
}

/// What a header line adds: the name is what stands before the first colon,
/// the value what follows it, trimmed; a line without a colon adds nothing.
pub open spec fn add_header_line(h: HeaderSeq, t: Seq<char>) -> HeaderSeq {
    let p = find_char_from(t, ':', 0);
    if p >= 0 {
        header_insert(h, t.subrange(0, p), trim(t.subrange(p + 1, t.len() as int)))
    } else {
        h
    }
}

/// The headers read from the lines starting at `i`, on top of `h`, and where
/// the body starts; `None` if a line is not UTF-8. A line that is blank once
/// trimmed, or the end of the data, ends the headers.
pub open spec fn read_headers(d: Seq<u8>, i: int, h: HeaderSeq) -> Option<(HeaderSeq, int)>
    decreases d.len() - i,
{
    let j = line_end(d, i);
    let raw = d.subrange(i, j);
    if !valid_utf8(raw) {
        None
    } else {
        let t = trim(decode_utf8(raw));
        if t.len() == 0 || !(i < j <= d.len()) {
            Some((h, j))
        } else {
            read_headers(d, j, add_header_line(h, t))
        }
    }
}

/// The body length that a `Content-Length` header announces, if it is there
/// and reads as a number.
pub open spec fn content_length(h: HeaderSeq) -> Option<nat> {
    match lookup(h, "Content-Length"@) {
        Some(v) => parse_unsigned(v, usize::MAX as nat),
        None => None,
    }
}

/// The words of the request line, if it is UTF-8.
pub open spec fn request_line_words(d: Seq<u8>) -> Option<Seq<Seq<char>>> {
    let raw = d.subrange(0, line_end(d, 0));
    if valid_utf8(raw) {
        Some(words(decode_utf8(raw)))
    } else {
        None
    }
}

/// The keep-alive rule, given the lowercased `Connection` value if there is
/// one: HTTP/1.1 keeps the connection unless it mentions `close`, HTTP/1.0
/// only when it mentions `keep-alive`, any other version never.
pub open spec fn keep_alive_rule(v: Version, connection: Option<Seq<char>>) -> bool {
    match v {
        Version::HTTP1_1 => match connection {
            Some(c) => !contains(c, "close"@),
            None => true,
        },
        Version::HTTP1_0 => match connection {
            Some(c) => contains(c, "keep-alive"@),
            None => false,
        },
        Version::UNKNOWN => false,
    }
}

/// Whether the request asks to keep the connection open.
pub open spec fn keep_alive_wanted(v: Version, h: HeaderSeq) -> bool {
    keep_alive_rule(
        v,
        match lookup(h, "connection"@) {
            Some(c) => Some(lower_of(c)),
            None => None,
        },
    )
}

/// Decides keep-alive from the version and the lowercased `Connection`
/// value.
pub fn keep_alive_decision(version: Version, connection: Option<&str>) -> (r: bool)
    ensures
        r == keep_alive_rule(
            version,
            match connection {
                Some(c) => Some(c@),
                None => None,
            },
        ),
{
    match version {
        Version::HTTP1_1 => match connection {
            Some(c) => !contains_chars(chars_of(c).as_slice(), chars_of("close").as_slice()),
            None => true,
        },
        Version::HTTP1_0 => match connection {
            Some(c) => contains_chars(chars_of(c).as_slice(), chars_of("keep-alive").as_slice()),
            None => false,
        },
        Version::UNKNOWN => false,
    }
}

/// The first of `parts` at or after `i` that, trimmed, starts with `key`;
/// trimmed.
pub open spec fn first_param(parts: Seq<Seq<char>>, key: Seq<char>, i: int) -> Option<Seq<char>>
    decreases parts.len() - i,
{
    if 0 <= i < parts.len() {
        if starts_with(trim(parts[i]), key) {
            Some(trim(parts[i]))
        } else {
            first_param(parts, key, i + 1)
        }
    } else {
        None
    }
}

/// The number given as `key` (such as `timeout=`) in the `Keep-Alive`
/// header: the first comma-separated part that starts with `key` decides.
pub open spec fn keep_alive_param(h: HeaderSeq, key: Seq<char>, max: nat) -> Option<nat> {
    match lookup(h, "keep-alive"@) {
        Some(v) => match first_param(split_on(v, ','), key, 0) {
            Some(t) => parse_unsigned(t.subrange(key.len() as int, t.len() as int), max),
            None => None,
        },
        None => None,
    }
}

/// What reading a request line and headers from `d` gives.
pub enum HeadParse {
    /// Nothing arrived.
    NoData,
    /// A line is not UTF-8.
    NotText,
    /// The request line has fewer than three words.
    BadRequestLine,
    /// The head, and the index at which the body starts.
    Parsed { method: Method, path: Seq<char>, version: Version, headers: HeaderSeq, end: int },
}

pub open spec fn parse_head(d: Seq<u8>) -> HeadParse {
    if d.len() == 0 {
        HeadParse::NoData
    } else {
        match request_line_words(d) {
            None => HeadParse::NotText,
            Some(w) => if w.len() < 3 {
                HeadParse::BadRequestLine
            } else {
                match read_headers(d, line_end(d, 0), Seq::empty()) {
                    None => HeadParse::NotText,
                    Some((h, k)) => HeadParse::Parsed {
                        method: method_of(w[0]),
                        path: w[1],
                        version: version_of(w[2]),
                        headers: h,
                        end: k,
                    },
                }
            },
        }
    }
}

/// What reading a whole request from `d` gives.
pub enum RequestParse {
    NoData,
    NotText,
    BadRequestLine,
    /// The data ends before the announced body does.
    Truncated,
    Parsed {
        method: Method,
        path: Seq<char>,
        version: Version,
        headers: HeaderSeq,
        body: Seq<u8>,
    },
}

pub open spec fn parse_request(d: Seq<u8>) -> RequestParse {
    match parse_head(d) {
        HeadParse::NoData => RequestParse::NoData,
        HeadParse::NotText => RequestParse::NotText,
        HeadParse::BadRequestLine => RequestParse::BadRequestLine,
        HeadParse::Parsed { method, path, version, headers, end } => match content_length(
            headers,
        ) {
            Some(n) => if end + n > d.len() {
                RequestParse::Truncated
            } else {
                RequestParse::Parsed {
                    method,
                    path,
                    version,
                    headers,
                    body: d.subrange(end, end + n),
                }
            },
            None => RequestParse::Parsed { method, path, version, headers, body: Seq::empty() },
        },
    }
}

fn line_end_at(d: &[u8], i: usize) -> (j: usize)
    requires
        i <= d@.len(),
    ensures
        j == line_end(d@, i as int),
        i <= j <= d@.len(),
{
    let mut j: usize = i;
    while j < d.len()
        invariant
            i <= j <= d@.len(),
            line_end(d@, j as int) == line_end(d@, i as int),
            forall|k: int| i <= k < j ==> d@[k] != 10u8,
        decreases d@.len() - j,
    {
        if d[j] == 10u8 {
            return j + 1;
        }
        j = j + 1;
    }
    j
}

fn copy_range(d: &[u8], from: usize, to: usize) -> (r: Vec<u8>)
    requires
        from <= to <= d@.len(),
    ensures
        r@ == d@.subrange(from as int, to as int),
{
    let mut r: Vec<u8> = Vec::new();
    let mut i: usize = from;
    while i < to
        invariant
            from <= i <= to <= d@.len(),
            r@ == d@.subrange(from as int, i as int),
        decreases to - i,
    {
        r.push(d[i]);
        i = i + 1;
        assert(r@ =~= d@.subrange(from as int, i as int));
    }
    r
}

/// The characters of `d[from..to]`, if those bytes are UTF-8.
fn decode_range(d: &[u8], from: usize, to: usize) -> (r: Option<Vec<char>>)
    requires
        from <= to <= d@.len(),
    ensures
        r is Some <==> valid_utf8(d@.subrange(from as int, to as int)),
        r matches Some(v) ==> v@ == decode_utf8(d@.subrange(from as int, to as int)),
{
    let raw = copy_range(d, from, to);
    match decode_utf8_bytes(raw.as_slice()) {
        Some(s) => Some(chars_of(s.as_str())),
        None => None,
    }
}

fn parse_header_line(headers: &mut HeaderMap, t: &[char])
    ensures
        final(headers)@ == add_header_line(old(headers)@, t@),
{
    let n = t.len();
    match find_char(t, ':') {
        Some(p) => {
            let name = slice_range(t, 0, p);
            let rest = slice_range(t, p + 1, n);
            let value = trim_chars(rest.as_slice());
            headers.insert(string_of(name.as_slice()), string_of(value.as_slice()));
        },
        None => {},
    }
}

/// Reads the request line and the headers: the request with an empty body,
/// and where the body starts.
fn read_head(d: &[u8]) -> (r: Result<(Request, usize), ServerError>)
    ensures
        match parse_head(d@) {
            HeadParse::NoData => r matches Err(ServerError::Io(IoKind::UnexpectedEof)),
            HeadParse::NotText => r matches Err(ServerError::Io(IoKind::InvalidData)),
            HeadParse::BadRequestLine => r matches Err(ServerError::HttpParse(_)),
            HeadParse::Parsed { method, path, version, headers, end } => r matches Ok((q, k))
                && q.method == method && q.path@ == path && q.version == version && q.headers@
                == headers && q.body@ == Seq::<u8>::empty() && k == end && k <= d@.len(),
        },
{
        if d.len() == 0 {
            return Err(ServerError::Io(IoKind::UnexpectedEof));
        }
        let j0 = line_end_at(d, 0);
        let line = match decode_range(d, 0, j0) {
            Some(l) => l,
            None => {
                return Err(ServerError::Io(IoKind::InvalidData));
            },
        };
        let parts = split_words(line.as_slice());
        if parts.len() < 3 {
            return Err(ServerError::HttpParse(String::from_str("Invalid Http request line")));
        }
        let method = Method::parse(string_of(parts[0].as_slice()).as_str());
        let path = string_of(parts[1].as_slice());
        let version = Version::from_chars(parts[2].as_slice());

        let mut headers = HeaderMap::new();
        let mut i: usize = j0;
        let mut start: usize = j0;
        let ghost target = read_headers(d@, j0 as int, Seq::empty());
        assert(request_line_words(d@) == Some(words(line@)));
        assert(target is None ==> parse_head(d@) is NotText);
        loop
            invariant_except_break
                j0 <= i <= d@.len(),
                target is None ==> parse_head(d@) is NotText,
                read_headers(d@, i as int, headers@) == target,
            ensures
                target == Some((headers@, start as int)),
                start <= d@.len(),
            decreases d@.len() - i,
        {
            let j = line_end_at(d, i);
            let text = match decode_range(d, i, j) {
                Some(l) => l,
                None => {
                    assert(target is None);
                    return Err(ServerError::Io(IoKind::InvalidData));
                },
            };
            let t = trim_chars(text.as_slice());
            if t.len() == 0 || j <= i {
                start = j;
                break;
            }
            parse_header_line(&mut headers, t.as_slice());
            i = j;
        }
        Ok((Request { method, path, version, headers, body: Vec::new() }, start))
}

impl Request {
    /// Reads one request from the bytes that arrived on a connection: the
    /// request line, the header lines up to a blank line, then as many body
    /// bytes as `Content-Length` gives.
    pub fn from_bytes(d: &[u8]) -> (r: Result<Request, ServerError>)
        ensures
            match parse_request(d@) {
                RequestParse::NoData => r matches Err(ServerError::Io(IoKind::UnexpectedEof)),
                RequestParse::NotText => r matches Err(ServerError::Io(IoKind::InvalidData)),
                RequestParse::BadRequestLine => r matches Err(ServerError::HttpParse(_)),
                RequestParse::Truncated => r matches Err(ServerError::Io(IoKind::UnexpectedEof)),
                RequestParse::Parsed { method, path, version, headers, body } => r matches Ok(q)
                    && q.method == method && q.path@ == path && q.version == version
                    && q.headers@ == headers && q.body@ == body,
            },
    {
        let (mut q, i) = match read_head(d) {
            Ok(x) => x,
            Err(e) => {
                return Err(e);
            },
        };
        match q.content_length() {
            Some(n) => {
                if n > d.len() - i {
                    return Err(ServerError::Io(IoKind::UnexpectedEof));
                }
                q.body = copy_range(d, i, i + n);
            },
            None => {},
        }
        Ok(q)
    }

    /// The body length that the head in `d` announces: what a reader must
    /// take from the connection after the blank line.
    pub fn announced_body_length(d: &[u8]) -> (r: Option<usize>)
        ensures
            match parse_head(d@) {
                HeadParse::Parsed { headers, .. } => match content_length(headers) {
                    Some(n) => r == Some(n as usize),
                    None => r is None,
                },
                _ => r is None,
            },
    {
        match read_head(d) {
            Ok((q, _)) => q.content_length(),
            Err(_) => None,
        }
    }

    /// The body length that `Content-Length` announces, if it reads as a
    /// number.
    pub fn content_length(&self) -> (r: Option<usize>)
        ensures
            match content_length(self.headers@) {
                Some(n) => r == Some(n as usize) && n <= usize::MAX,
                None => r is None,
            },
    {
        match self.headers.find("Content-Length") {
            Some(v) => {
                let v_chars = chars_of(v.as_str());
                match parse_unsigned_chars(v_chars.as_slice(), usize::MAX as u64) {
                    Some(n) => Some(n as usize),
                    None => None,
                }
            },
            None => None,
        }
    }

    /// The value of the first header whose name matches `name` once both
    /// are lowercased.
    pub fn get_header(&self, name: &str) -> (r: Option<&String>)
        ensures
            r matches Some(v) ==> lookup(self.headers@, name@) == Some(v@),
            r is None ==> lookup(self.headers@, name@) is None,
    {
        self.headers.find(name)
    }

    /// Whether the client wants the connection kept open: HTTP/1.1 does
    /// unless `Connection` mentions `close`, HTTP/1.0 does only when it
    /// mentions `keep-alive`, any other version does not.
    pub fn wants_keep_alive(&self) -> (r: bool)
        ensures
            r == keep_alive_wanted(self.version, self.headers@),
    {
        match self.get_header("connection") {
            Some(c) => {
                let lowered = to_lower(c.as_str());
                keep_alive_decision(self.version, Some(lowered.as_str()))
            },
            None => keep_alive_decision(self.version, None),
        }
    }

    fn keep_alive_number(&self, key: &str, max: u64) -> (r: Option<u64>)
        ensures
            match keep_alive_param(self.headers@, key@, max as nat) {
                Some(n) => r == Some(n as u64) && n <= max,
                None => r is None,
            },
    {
        let value = match self.get_header("keep-alive") {
            Some(v) => v,
            None => {
                return None;
            },
        };
        let k = chars_of(key);
        let parts = split_chars(chars_of(value.as_str()).as_slice(), ',');
        let ghost all = split_on(value@, ',');
        let mut i: usize = 0;
        while i < parts.len()
            invariant
                i <= parts@.len() == all.len(),
                all == split_on(value@, ','),
                k@ == key@,
                lookup(self.headers@, "keep-alive"@) == Some(value@),
                forall|m: int| 0 <= m < parts@.len() ==> #[trigger] parts@[m]@ == all[m],
                first_param(all, k@, i as int) == first_param(all, k@, 0),
            decreases parts@.len() - i,
        {
            let t = trim_chars(parts[i].as_slice());
            if occurs_at_index(t.as_slice(), k.as_slice(), 0) {
                let digits = slice_range(t.as_slice(), k.len(), t.len());
                return match parse_unsigned_chars(digits.as_slice(), max) {
                    Some(n) => Some(n),
                    None => None,
                };
            }
            i = i + 1;
        }
        None
    }

    /// The `timeout=` number of the `Keep-Alive` header.
    pub fn keep_alive_timeout(&self) -> (r: Option<u64>)
        ensures
            match keep_alive_param(self.headers@, "timeout="@, u64::MAX as nat) {
                Some(n) => r == Some(n as u64),
                None => r is None,
            },
    {
        self.keep_alive_number("timeout=", u64::MAX)
    }

    /// The `max=` number of the `Keep-Alive` header.
    pub fn keep_alive_max(&self) -> (r: Option<usize>)
        ensures
            match keep_alive_param(self.headers@, "max="@, usize::MAX as nat) {
                Some(n) => r == Some(n as usize),
                None => r is None,
            },
    {
        match self.keep_alive_number("max=", usize::MAX as u64) {
            Some(n) => Some(n as usize),
            None => None,
        }
    }
}

/// Whether a line read after the request line ends the head: it is blank
/// once trimmed, or it is not UTF-8 (which the parse then rejects).
pub fn ends_head(line: &[u8]) -> (r: bool)
    ensures
        r == (!valid_utf8(line@) || trim(decode_utf8(line@)).len() == 0),
{
    match decode_utf8_bytes(line) {
        Some(s) => {
            let t = trim_chars(chars_of(s.as_str()).as_slice());
            t.len() == 0
        },
        None => true,
    }
}

} // verus!
