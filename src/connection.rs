use vstd::prelude::*;
use vstd::utf8::*;

use crate::config::{
    DEFAULT_MAX_REQUESTS_PER_CONNECTION,
    DEFAULT_TIMEOUT_SECS,
    ServerConfig,
    or_default,
};
use crate::error::{
    IoKind,
    ServerError,
    bad_request_page,
    error_message,
    error_to_response,
    page_headers,
};
use crate::headers::{HeaderSeq, header_insert};
use crate::http::{Method, StatusCode, Version};
use crate::request::{Request, keep_alive_param, keep_alive_wanted};
use crate::response::{Response, keep_alive_headers, wire};
use crate::text::{chars_of, decimal, occurs_at, occurs_at_index};

verus! {

/// Seconds a cacheable resource may be kept on a persistent connection.
pub const CACHE_MAX_AGE_SECS: u64 = 3600;

/// What a connection has done so far. Times are in milliseconds.
#[derive(Debug, Clone, Copy, PartialEq, Eq, Structural)]
pub struct ConnectionStats {
    pub requests_handled: usize,
    pub bytes_received: usize,
    pub bytes_sent: usize,
    pub duration: u64,
    pub active_time: u64,
    pub max_request_time: u64,
}

pub open spec fn zero_stats() -> ConnectionStats {
    ConnectionStats {
        requests_handled: 0,
        bytes_received: 0,
        bytes_sent: 0,
        duration: 0,
        active_time: 0,
        max_request_time: 0,
    }
}

impl ConnectionStats {
    pub fn new() -> (r: ConnectionStats)
        ensures
            r == zero_stats(),
    {
        ConnectionStats {
            requests_handled: 0,
            bytes_received: 0,
            bytes_sent: 0,
            duration: 0,
            active_time: 0,
            max_request_time: 0,
        }
    }
}

impl Default for ConnectionStats {
    fn default() -> (r: ConnectionStats)
        ensures
            r == zero_stats(),
    {
        ConnectionStats::new()
    }
}

/// Where a connection stands in its request/response cycle.
#[derive(Debug, Clone, Copy, PartialEq, Eq, Structural)]
pub enum Phase {
    /// Between requests.
    Idle,
    /// Waiting for a request.
    Reading,
    /// The request is with the handler; what the answer must say is decided.
    Processing { keep_alive: bool, timeout: u64, max_remaining: usize, is_head: bool, cache: bool },
    /// The answer is being written.
    Writing { keep_alive: bool, len: usize },
    /// The answer to a malformed request is being written.
    Rejecting { len: usize },
    /// Done.
    Closed,
}

/// What the code driving a connection is to do next.
pub enum Action {
    /// Read one request, within the read timeout, and report it.
    Read,
    /// Hand the request to the handler and report its response.
    Dispatch(Request),
    /// Write these bytes, within the write timeout, and report the outcome.
    Send(Vec<u8>),
    /// The answer went out and the connection stays open: begin the next
    /// cycle.
    Continue,
    /// End the connection quietly.
    Close,
    /// End the connection and report the error.
    Fail(ServerError),
}

/// The abstract state of a connection.
pub struct ConnectionView {
    pub peer_addr: Seq<char>,
    pub request_count: usize,
    pub max_requests: usize,
    pub created_at: u64,
    pub last_active: u64,
    pub request_start: u64,
    pub idle_timeout: u64,
    pub stats: ConnectionStats,
    pub is_secure: bool,
    pub phase: Phase,
}

/// One client connection, driven through repeated request/response cycles.
/// It holds no socket: the code that owns the socket reports each event and
/// performs the action it gets back.
pub struct HttpConnection {
    peer_addr: String,
    request_count: usize,
    max_requests: usize,
    created_at: u64,
    last_active: u64,
    request_start: u64,
    idle_timeout: u64,
    stats: ConnectionStats,
    is_secure: bool,
    phase: Phase,
}

impl View for HttpConnection {
    type V = ConnectionView;

    closed spec fn view(&self) -> ConnectionView {
        ConnectionView {
            peer_addr: self.peer_addr@,
            request_count: self.request_count,
            max_requests: self.max_requests,
            created_at: self.created_at,
            last_active: self.last_active,
            request_start: self.request_start,
            idle_timeout: self.idle_timeout,
            stats: self.stats,
            is_secure: self.is_secure,
            phase: self.phase,
        }
    }
}

/// A connection accepted at `now` that has served nothing yet.
pub open spec fn fresh_connection(peer: Seq<char>, max_requests: usize, idle_timeout: u64, now: u64) -> ConnectionView {
    ConnectionView {
        peer_addr: peer,
        request_count: 0,
        max_requests,
        created_at: now,
        last_active: now,
        request_start: now,
        idle_timeout,
        stats: zero_stats(),
        is_secure: false,
        phase: Phase::Idle,
    }
}

/// The connection may still read a request.
pub open spec fn has_quota_left(c: ConnectionView) -> bool {
    c.request_count < c.max_requests
}

/// The connection once a cycle started at `now` with quota left: one more
/// request counted, active now, waiting for the request.
pub open spec fn begun(c: ConnectionView, now: u64) -> ConnectionView {
    ConnectionView {
        phase: Phase::Reading,
        request_count: (c.request_count + 1) as usize,
        last_active: now,
        request_start: now,
        ..c
    }
}

/// Milliseconds from `from` to `now`; none if the clock went back.
pub open spec fn elapsed(from: u64, now: u64) -> u64 {
    if now > from {
        (now - from) as u64
    } else {
        0
    }
}

/// The connection has been idle longer than its idle timeout.
pub open spec fn idle_expired(c: ConnectionView, now: u64) -> bool {
    elapsed(c.last_active, now) > c.idle_timeout * 1000
}

/// A read that ended this way means the client went away or stayed silent.
pub open spec fn benign_read_failure(e: ServerError) -> bool {
    match e {
        ServerError::Io(k) => k == IoKind::TimedOut || k == IoKind::UnexpectedEof || k
            == IoKind::ConnectionReset || k == IoKind::ConnectionAborted,
        _ => false,
    }
}

/// A write that ended this way means the client is gone.
pub open spec fn peer_gone(e: ServerError) -> bool {
    match e {
        ServerError::Io(k) => k == IoKind::BrokenPipe || k == IoKind::ConnectionReset || k
            == IoKind::ConnectionAborted,
        _ => false,
    }
}

/// What the answer to a malformed request says went wrong.
pub open spec fn failure_text(e: ServerError) -> Seq<char> {
    match e {
        ServerError::HttpParse(m) => m@,
        _ => error_message(e),
    }
}

/// The bytes that answer a malformed request: the 400 page, closing the
/// connection.
pub open spec fn rejection_bytes(e: ServerError) -> Seq<u8> {
    let text = bad_request_page(failure_text(e));
    wire(
        Version::HTTP1_1,
        StatusCode::BadRequest,
        keep_alive_headers(page_headers(text), false, None, None),
        encode_utf8(text),
    )
}

pub open spec fn ends_with(s: Seq<char>, suffix: Seq<char>) -> bool {
    occurs_at(s, suffix, s.len() - suffix.len())
}

/// A stylesheet or script, which caches may keep.
pub open spec fn cacheable_path(p: Seq<char>) -> bool {
    ends_with(p, ".css"@) || ends_with(p, ".js"@)
}

/// The phase a well-formed request leads to: the keep-alive decision, the
/// idle timeout and remaining requests to announce, and how to answer.
pub open spec fn negotiated(c: ConnectionView, method: Method, path: Seq<char>, version: Version, h: HeaderSeq) -> Phase {
    let keep_alive = keep_alive_wanted(version, h);
    let remaining = c.max_requests.saturating_sub(c.request_count);
    Phase::Processing {
        keep_alive,
        timeout: match keep_alive_param(h, "timeout="@, u64::MAX as nat) {
            Some(t) => t as u64,
            None => c.idle_timeout,
        },
        max_remaining: match keep_alive_param(h, "max="@, usize::MAX as nat) {
            Some(m) => if m < remaining {
                m as usize
            } else {
                remaining
            },
            None => remaining,
        },
        is_head: method == Method::HEAD,
        cache: keep_alive && cacheable_path(path),
    }
}

/// The headers of the answer: the handler's, with the keep-alive decision,
/// and the cache lifetime for cacheable resources on a persistent
/// connection.
pub open spec fn annotated(h: HeaderSeq, keep_alive: bool, timeout: u64, max: usize, cache: bool) -> HeaderSeq {
    let h1 = keep_alive_headers(h, keep_alive, Some(timeout), Some(max));
    if cache {
        header_insert(h1, "Cache-Control"@, "max-age="@ + decimal(CACHE_MAX_AGE_SECS as nat))
    } else {
        h1
    }
}

/// The bytes that answer a request, given the handler's response and the
/// decisions taken when it was read. A HEAD request gets the same head with
/// no body.
pub open spec fn answer(p: Phase, v: Version, s: StatusCode, h: HeaderSeq, body: Seq<u8>) -> Seq<u8> {
    match p {
        Phase::Processing { keep_alive, timeout, max_remaining, is_head, cache } => wire(
            v,
            s,
            annotated(h, keep_alive, timeout, max_remaining, cache),
            if is_head {
                Seq::empty()
            } else {
                body
            },
        ),
        _ => Seq::empty(),
    }
}

fn is_benign_read_failure(e: &ServerError) -> (r: bool)
    ensures
        r == benign_read_failure(*e),
{
    match e {
        ServerError::Io(k) => match k {
            IoKind::TimedOut | IoKind::UnexpectedEof | IoKind::ConnectionReset
            | IoKind::ConnectionAborted => true,
            _ => false,
        },
        _ => false,
    }
}

fn is_peer_gone(e: &ServerError) -> (r: bool)
    ensures
        r == peer_gone(*e),
{
    match e {
        ServerError::Io(k) => match k {
            IoKind::BrokenPipe | IoKind::ConnectionReset | IoKind::ConnectionAborted => true,
            _ => false,
        },
        _ => false,
    }
}

fn path_ends_with(p: &String, suffix: &str) -> (r: bool)
    ensures
        r == ends_with(p@, suffix@),
{
    let s = chars_of(p.as_str());
    let x = chars_of(suffix);
    if x.len() > s.len() {
        return false;
    }
    occurs_at_index(s.as_slice(), x.as_slice(), s.len() - x.len())
}

fn since(from: u64, now: u64) -> (r: u64)
    ensures
        r == elapsed(from, now),
{
    if now > from {
        now - from
    } else {
        0
    }
}

impl HttpConnection {
    /// A fresh connection from `peer_addr`, accepted at `now`, with the
    /// configured request quota and idle timeout.
    pub fn new(peer_addr: String, config: &ServerConfig, now: u64) -> (r: HttpConnection)
        ensures
            r@ == fresh_connection(
                peer_addr@,
                or_default(config.max_requests_per_connection, DEFAULT_MAX_REQUESTS_PER_CONNECTION),
                or_default(config.keep_alive_timeout, DEFAULT_TIMEOUT_SECS),
                now,
            ),
    {
        HttpConnection::with_limits(
            peer_addr,
            config.request_quota(),
            config.idle_timeout_secs(),
            now,
        )
    }

    /// A fresh connection from `peer_addr`, accepted at `now`.
    pub fn with_limits(peer_addr: String, max_requests: usize, idle_timeout: u64, now: u64) -> (r:
        HttpConnection)
        ensures
            r@ == fresh_connection(peer_addr@, max_requests, idle_timeout, now),
    {
        HttpConnection {
            peer_addr,
            request_count: 0,
            max_requests,
            created_at: now,
            last_active: now,
            request_start: now,
            idle_timeout,
            stats: ConnectionStats::new(),
            is_secure: false,
            phase: Phase::Idle,
        }
    }

    /// Starts a cycle at `now`: the connection counts as active, and a new
    /// request is read unless the quota is used up, in which case the
    /// connection ends with no answer.
    pub fn begin(&mut self, now: u64) -> (r: Action)
        ensures
            old(self)@.phase != Phase::Idle ==> r is Fail && final(self)@ == (ConnectionView {
                phase: Phase::Closed,
                ..old(self)@
            }),
            old(self)@.phase == Phase::Idle && !has_quota_left(old(self)@) ==> r is Close
                && final(self)@ == (ConnectionView {
                phase: Phase::Closed,
                last_active: now,
                request_start: now,
                ..old(self)@
            }),
            old(self)@.phase == Phase::Idle && has_quota_left(old(self)@) ==> r is Read
                && final(self)@ == begun(old(self)@, now),
    {
        if self.phase != Phase::Idle {
            self.phase = Phase::Closed;
            return Action::Fail(ServerError::Other(String::from_str("request cycle out of order")));
        }
        self.last_active = now;
        self.request_start = now;
        if self.request_count >= self.max_requests {
            self.phase = Phase::Closed;
            return Action::Close;
        }
        self.request_count = self.request_count + 1;
        self.phase = Phase::Reading;
        Action::Read
    }

    /// Takes what the read gave, `bytes` long, arriving at `now`. A request
    /// after the idle timeout, or a read that timed out or found the client
    /// gone, ends the connection with no answer; a malformed request is
    /// answered with a 400 page; a good one goes to the handler.
    pub fn received(&mut self, request: Result<Request, ServerError>, bytes: usize, now: u64) -> (r:
        Action)
        ensures
            old(self)@.phase != Phase::Reading ==> r is Fail && final(self)@.phase == Phase::Closed,
            old(self)@.phase == Phase::Reading ==> final(self)@.stats == (ConnectionStats {
                bytes_received: old(self)@.stats.bytes_received.saturating_add(bytes),
                ..old(self)@.stats
            }),
            old(self)@.phase == Phase::Reading ==> final(self)@ == (ConnectionView {
                phase: final(self)@.phase,
                stats: final(self)@.stats,
                ..old(self)@
            }),
            old(self)@.phase == Phase::Reading && idle_expired(old(self)@, now) ==> r is Close
                && final(self)@.phase == Phase::Closed,
            old(self)@.phase == Phase::Reading && !idle_expired(old(self)@, now) ==> match request {
                Err(e) => if benign_read_failure(e) {
                    r is Close && final(self)@.phase == Phase::Closed
                } else {
                    r matches Action::Send(b) && b@ == rejection_bytes(e) && final(self)@.phase
                        == (Phase::Rejecting { len: b@.len() as usize })
                },
                Ok(q) => r matches Action::Dispatch(d) && d == q && final(self)@.phase
                    == negotiated(old(self)@, q.method, q.path@, q.version, q.headers@),
            },
    {
        if self.phase != Phase::Reading {
            self.phase = Phase::Closed;
            return Action::Fail(ServerError::Other(String::from_str("request cycle out of order")));
        }
        self.stats.bytes_received = self.stats.bytes_received.saturating_add(bytes);
        let idle = since(self.last_active, now);
        if self.idle_timeout <= u64::MAX / 1000 && idle > self.idle_timeout * 1000 {
            self.phase = Phase::Closed;
            return Action::Close;
        }
        match request {
            Err(e) => {
                if is_benign_read_failure(&e) {
                    self.phase = Phase::Closed;
                    return Action::Close;
                }
                let text = match &e {
                    ServerError::HttpParse(m) => m.clone(),
                    _ => e.to_string(),
                };
                let reply = error_to_response(&ServerError::HttpParse(text)).with_keep_alive(
                    false,
                    None,
                    None,
                );
                let mut out: Vec<u8> = Vec::new();
                let _ = reply.write_to(&mut out);
                self.phase = Phase::Rejecting { len: out.len() };
                Action::Send(out)
            },
            Ok(q) => {
                let keep_alive = q.wants_keep_alive();
                let timeout = match q.keep_alive_timeout() {
                    Some(t) => t,
                    None => self.idle_timeout,
                };
                let remaining = self.max_requests.saturating_sub(self.request_count);
                let max_remaining = match q.keep_alive_max() {
                    Some(m) => if m < remaining {
                        m
                    } else {
                        remaining
                    },
                    None => remaining,
                };
                let cache = keep_alive && (path_ends_with(&q.path, ".css") || path_ends_with(
                    &q.path,
                    ".js",
                ));
                self.phase = Phase::Processing {
                    keep_alive,
                    timeout,
                    max_remaining,
                    is_head: q.method == Method::HEAD,
                    cache,
                };
                Action::Dispatch(q)
            },
        }
    }

    /// Takes the handler's response and sends it, annotated with the
    /// keep-alive decision; for a HEAD request the body is left out while
    /// its headers, `Content-Length` included, stay those of the full body.
    pub fn handled(&mut self, response: Response) -> (r: Action)
        ensures
            !(old(self)@.phase is Processing) ==> r is Fail && final(self)@.phase == Phase::Closed,
            old(self)@.phase is Processing ==> (r matches Action::Send(b) && b@ == answer(
                old(self)@.phase,
                response.version,
                response.status,
                response.headers@,
                response.body@,
            ) && final(self)@ == (ConnectionView {
                phase: Phase::Writing {
                    keep_alive: old(self)@.phase->Processing_keep_alive,
                    len: b@.len() as usize,
                },
                ..old(self)@
            })),
    {
        match self.phase {
            Phase::Processing { keep_alive, timeout, max_remaining, is_head, cache } => {
                let mut reply = response.with_keep_alive(keep_alive, Some(timeout), Some(max_remaining));
                if cache {
                    reply = reply.with_cache_control(CACHE_MAX_AGE_SECS);
                }
                if is_head {
                    reply.body = Vec::new();
                }
                let mut out: Vec<u8> = Vec::new();
                let _ = reply.write_to(&mut out);
                self.phase = Phase::Writing { keep_alive, len: out.len() };
                Action::Send(out)
            },
            _ => {
                self.phase = Phase::Closed;
                Action::Fail(ServerError::Other(String::from_str("request cycle out of order")))
            },
        }
    }

    /// Takes the outcome of the write that ended at `now`. After an answer
    /// that went out the connection stays open if keep-alive was agreed; a
    /// failed write ends it with the error, except that a client gone while
    /// its malformed request is answered ends it quietly.
    pub fn written(&mut self, result: Result<(), ServerError>, now: u64) -> (r: Action)
        ensures
            match old(self)@.phase {
                Phase::Writing { keep_alive, len } => match result {
                    Ok(_) => final(self)@ == (ConnectionView {
                        phase: if keep_alive {
                            Phase::Idle
                        } else {
                            Phase::Closed
                        },
                        stats: served_stats(old(self)@, len, now),
                        ..old(self)@
                    }) && if keep_alive {
                        r is Continue
                    } else {
                        r is Close
                    },
                    Err(e) => r matches Action::Fail(f) && f == e && final(self)@ == (
                    ConnectionView { phase: Phase::Closed, ..old(self)@ }),
                },
                Phase::Rejecting { len } => match result {
                    Ok(_) => r is Close && final(self)@ == (ConnectionView {
                        phase: Phase::Closed,
                        stats: ConnectionStats {
                            requests_handled: old(self)@.stats.requests_handled.saturating_add(1),
                            bytes_sent: old(self)@.stats.bytes_sent.saturating_add(len),
                            ..old(self)@.stats
                        },
                        ..old(self)@
                    }),
                    Err(e) => final(self)@ == (ConnectionView {
                        phase: Phase::Closed,
                        ..old(self)@
                    }) && if peer_gone(e) {
                        r is Close
                    } else {
                        r matches Action::Fail(f) && f == e
                    },
                },
                _ => r is Fail && final(self)@.phase == Phase::Closed,
            },
    {
        match self.phase {
            Phase::Writing { keep_alive, len } => match result {
                Ok(_) => {
                    let took = since(self.request_start, now);
                    self.stats.requests_handled = self.stats.requests_handled.saturating_add(1);
                    self.stats.bytes_sent = self.stats.bytes_sent.saturating_add(len);
                    self.stats.active_time = self.stats.active_time.saturating_add(took);
                    if took > self.stats.max_request_time {
                        self.stats.max_request_time = took;
                    }
                    self.stats.duration = since(self.created_at, now);
                    if keep_alive {
                        self.phase = Phase::Idle;
                        Action::Continue
                    } else {
                        self.phase = Phase::Closed;
                        Action::Close
                    }
                },
                Err(e) => {
                    self.phase = Phase::Closed;
                    Action::Fail(e)
                },
            },
            Phase::Rejecting { len } => match result {
                Ok(_) => {
                    self.stats.requests_handled = self.stats.requests_handled.saturating_add(1);
                    self.stats.bytes_sent = self.stats.bytes_sent.saturating_add(len);
                    self.phase = Phase::Closed;
                    Action::Close
                },
                Err(e) => {
                    self.phase = Phase::Closed;
                    if is_peer_gone(&e) {
                        Action::Close
                    } else {
                        Action::Fail(e)
                    }
                },
            },
            _ => {
                self.phase = Phase::Closed;
                Action::Fail(ServerError::Other(String::from_str("request cycle out of order")))
            },
        }
    }

    pub fn peer_addr(&self) -> (r: &String)
        ensures
            r@ == self@.peer_addr,
    {
        &self.peer_addr
    }

    pub fn is_secure(&self) -> (r: bool)
        ensures
            r == self@.is_secure,
    {
        self.is_secure
    }

    pub fn stats(&self) -> (r: &ConnectionStats)
        ensures
            *r == self@.stats,
    {
        &self.stats
    }

    pub fn request_count(&self) -> (r: usize)
        ensures
            r == self@.request_count,
    {
        self.request_count
    }

    pub fn phase(&self) -> (r: Phase)
        ensures
            r == self@.phase,
    {
        self.phase
    }

    /// Whether the connection has sat idle longer than its idle timeout.
    pub fn is_expired(&self, now: u64) -> (r: bool)
        ensures
            r == idle_expired(self@, now),
    {
        let idle = since(self.last_active, now);
        self.idle_timeout <= u64::MAX / 1000 && idle > self.idle_timeout * 1000
    }

    /// Milliseconds since the connection was accepted.
    pub fn lifetime(&self, now: u64) -> (r: u64)
        ensures
            r == elapsed(self@.created_at, now),
    {
        since(self.created_at, now)
    }

    /// Milliseconds since the connection was last active.
    pub fn idle_time(&self, now: u64) -> (r: u64)
        ensures
            r == elapsed(self@.last_active, now),
    {
        since(self.last_active, now)
    }

    /// Whether the connection could serve again: not expired, under its
    /// quota, and `healthy` by the liveness probe.
    pub fn is_reusable(&self, now: u64, healthy: bool) -> (r: bool)
        ensures
            r == (!idle_expired(self@, now) && self@.request_count < self@.max_requests && healthy),
    {
        !self.is_expired(now) && self.request_count < self.max_requests && healthy
    }

    /// Marks the connection active at `now`.
    pub fn reset(&mut self, now: u64)
        ensures
            final(self)@ == (ConnectionView { last_active: now, ..old(self)@ }),
    {
        self.last_active = now;
    }

    /// Ends the connection; the result says whether it saw enough use (more
    /// than one request, or more than ten seconds) to be worth a summary.
    pub fn close(self, now: u64) -> (r: bool)
        ensures
            r == (self@.request_count > 1 || elapsed(self@.created_at, now) > 10_000),
    {
        self.request_count > 1 || since(self.created_at, now) > 10_000
    }
}

/// The counters after an answer of `len` bytes went out at `now`.
pub open spec fn served_stats(c: ConnectionView, len: usize, now: u64) -> ConnectionStats {
    let took = elapsed(c.request_start, now);
    ConnectionStats {
        requests_handled: c.stats.requests_handled.saturating_add(1),
        bytes_received: c.stats.bytes_received,
        bytes_sent: c.stats.bytes_sent.saturating_add(len),
        duration: elapsed(c.created_at, now),
        active_time: c.stats.active_time.saturating_add(took),
        max_request_time: if took > c.stats.max_request_time {
            took
        } else {
            c.stats.max_request_time
        },
    }
}

} // verus!
