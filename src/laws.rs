use vstd::prelude::*;
use vstd::utf8::*;

use crate::connection::{
    begun,
    idle_expired,
    ConnectionView,
    has_quota_left,
    Phase,
    answer,
    annotated,
    negotiated,
    rejection_bytes,
    failure_text,
};
use crate::connection_pool::{LedgerView, admit_step};
use crate::error::{ServerError, bad_request_page, error_headers, page_headers};
use crate::headers::{HeaderSeq, exact, lemma_insert_keeps_others, lemma_insert_sets, lookup};
use crate::http::{Method, StatusCode, Version};
use crate::request::{RequestParse, keep_alive_wanted, parse_request, request_line_words};
use crate::response::{head_text, header_lines, keep_alive_headers, status_line, wire};
use crate::text::{contains, lower_of, occurs_at};

verus! {

/// The answers to `n` connection attempts made one after another, none
/// released in between.
pub open spec fn admit_answers(l: LedgerView, n: nat) -> Seq<bool>
    decreases n,
{
    if n == 0 {
        Seq::empty()
    } else {
        seq![admit_step(l).1] + admit_answers(admit_step(l).0, (n - 1) as nat)
    }
}

proof fn lemma_admit_answers(l: LedgerView, n: nat)
    requires
        l.active <= l.max_connections,
    ensures
        admit_answers(l, n).len() == n,
        forall|i: int| 0 <= i < n ==> #[trigger] admit_answers(l, n)[i] == (l.active + i < l.max_connections),
    decreases n,
{
    if n > 0 {
        let next = admit_step(l).0;
        lemma_admit_answers(next, (n - 1) as nat);
        assert forall|i: int| 0 <= i < n implies #[trigger] admit_answers(l, n)[i] == (l.active + i
            < l.max_connections) by {
            if i > 0 {
                assert(admit_answers(l, n)[i] == admit_answers(next, (n - 1) as nat)[i - 1]);
            }
        }
    }
}

/// With a limit of `m` and nobody connected, `m` clients that stay connected
/// are all let in and the next one is refused; a refused client gets the
/// 503 page, which tells it to retry after 60 seconds.
pub proof fn lemma_capacity(m: usize, idle: Seq<ConnectionView>)
    ensures
        ({
            let answers = admit_answers(
                LedgerView { active: 0, max_connections: m, idle },
                (m + 1) as nat,
            );
            &&& answers.len() == m + 1
            &&& forall|i: int| 0 <= i < m ==> #[trigger] answers[i]
            &&& !answers[m as int]
        }),
        exact(error_headers(ServerError::ServerBusy), "Retry-After"@) == Some("60"@),
{
    lemma_admit_answers(LedgerView { active: 0, max_connections: m, idle }, (m + 1) as nat);
    lemma_insert_sets(page_headers(crate::error::error_page(ServerError::ServerBusy)), "Retry-After"@, "60"@);
}

/// The connection after one request was read, answered and kept open: the
/// cycle's start counted one more request against its quota, and nothing
/// after it touches the count.
pub open spec fn after_cycle(c: ConnectionView) -> ConnectionView {
    ConnectionView { request_count: (c.request_count + 1) as usize, ..c }
}

/// Whether each of `n` requests sent one after another over one connection
/// is read (rather than met by the connection's end), every answer keeping
/// the connection open.
pub open spec fn quota_answers(c: ConnectionView, n: nat) -> Seq<bool>
    decreases n,
{
    if n == 0 {
        Seq::empty()
    } else {
        let ok = has_quota_left(c);
        seq![ok] + quota_answers(
            if ok {
                after_cycle(c)
            } else {
                c
            },
            (n - 1) as nat,
        )
    }
}

proof fn lemma_quota_answers(c: ConnectionView, n: nat)
    requires
        c.request_count <= c.max_requests,
    ensures
        quota_answers(c, n).len() == n,
        forall|i: int|
            0 <= i < n ==> #[trigger] quota_answers(c, n)[i] == (c.request_count + i < c.max_requests),
    decreases n,
{
    if n > 0 {
        let ok = has_quota_left(c);
        let next = if ok {
            after_cycle(c)
        } else {
            c
        };
        lemma_quota_answers(next, (n - 1) as nat);
        assert forall|i: int| 0 <= i < n implies #[trigger] quota_answers(c, n)[i] == (
        c.request_count + i < c.max_requests) by {
            if i > 0 {
                assert(quota_answers(c, n)[i] == quota_answers(next, (n - 1) as nat)[i - 1]);
            }
        }
    }
}

/// A connection with a quota of `k` requests reads the first `k` of `k + 1`
/// requests sent over it and ends at the last one without answering it.
pub proof fn lemma_request_quota(c: ConnectionView)
    requires
        c.request_count == 0,
    ensures
        ({
            let answers = quota_answers(c, (c.max_requests + 1) as nat);
            &&& answers.len() == c.max_requests + 1
            &&& forall|i: int| 0 <= i < c.max_requests ==> #[trigger] answers[i]
            &&& !answers[c.max_requests as int]
        }),
{
    lemma_quota_answers(c, (c.max_requests + 1) as nat);
}

/// An HTTP/1.1 request whose `Connection` value lowercases to `keep-alive`,
/// with no `Keep-Alive` header, keeps the connection open, and is told the
/// server's own idle timeout and remaining quota.
pub proof fn lemma_keep_alive_by_default(
    c: ConnectionView,
    m: Method,
    path: Seq<char>,
    h: HeaderSeq,
    v: Seq<char>,
)
    requires
        lookup(h, "connection"@) == Some(v),
        lower_of(v) == "keep-alive"@,
        lookup(h, "keep-alive"@) is None,
    ensures
        keep_alive_wanted(Version::HTTP1_1, h),
        negotiated(c, m, path, Version::HTTP1_1, h) matches Phase::Processing {
            keep_alive,
            timeout,
            max_remaining,
            ..
        } && keep_alive && timeout == c.idle_timeout && max_remaining
            == c.max_requests.saturating_sub(c.request_count),
{
    reveal_strlit("keep-alive");
    reveal_strlit("close");
    let hay = "keep-alive"@;
    assert forall|i: int| !occurs_at(hay, "close"@, i) by {
        if occurs_at(hay, "close"@, i) {
            assert(hay.subrange(i, i + 5)[0] == 'c');
            assert(hay[i] == 'c');
        }
    }
    assert(!contains(hay, "close"@));
}

/// A request that cannot be read is answered with status 400 and
/// `Connection: close`.
pub proof fn lemma_rejection_closes(e: ServerError)
    ensures
        ({
            let h = keep_alive_headers(
                page_headers(bad_request_page(failure_text(e))),
                false,
                None,
                None,
            );
            &&& exact(h, "Connection"@) == Some("close"@)
            &&& rejection_bytes(e) == wire(
                Version::HTTP1_1,
                StatusCode::BadRequest,
                h,
                encode_utf8(bad_request_page(failure_text(e))),
            )
        }),
{
    lemma_insert_sets(page_headers(bad_request_page(failure_text(e))), "Connection"@, "close"@);
}

/// The answer to a HEAD request has exactly the head of the answer to the
/// same GET request, `Content-Length` included, and no body.
pub proof fn lemma_head_like_get(
    v: Version,
    s: StatusCode,
    h: HeaderSeq,
    body: Seq<u8>,
    keep_alive: bool,
    timeout: u64,
    max: usize,
    cache: bool,
)
    ensures
        ({
            let head = annotated(h, keep_alive, timeout, max, cache);
            let get = Phase::Processing {
                keep_alive,
                timeout,
                max_remaining: max,
                is_head: false,
                cache,
            };
            let head_req = Phase::Processing {
                keep_alive,
                timeout,
                max_remaining: max,
                is_head: true,
                cache,
            };
            &&& answer(get, v, s, h, body) == wire(v, s, head, body)
            &&& answer(head_req, v, s, h, body) == wire(v, s, head, Seq::empty())
            &&& exact(head, "Content-Length"@) == exact(h, "Content-Length"@)
        }),
{
    reveal_strlit("Content-Length");
    reveal_strlit("Connection");
    reveal_strlit("Keep-Alive");
    reveal_strlit("Cache-Control");
    let cl = "Content-Length"@;
    assert(cl.len() == 14);
    if keep_alive {
        let h1 = crate::headers::header_insert(h, "Connection"@, "keep-alive"@);
        lemma_insert_keeps_others(h, "Connection"@, "keep-alive"@, cl);
        let value = crate::response::keep_alive_value(Some(timeout), Some(max));
        lemma_insert_keeps_others(h1, "Keep-Alive"@, value, cl);
        let h2 = crate::headers::header_insert(h1, "Keep-Alive"@, value);
        if cache {
            lemma_insert_keeps_others(
                h2,
                "Cache-Control"@,
                "max-age="@ + crate::text::decimal(crate::connection::CACHE_MAX_AGE_SECS as nat),
                cl,
            );
        }
    } else {
        let h1 = crate::headers::header_insert(h, "Connection"@, "close"@);
        lemma_insert_keeps_others(h, "Connection"@, "close"@, cl);
        if cache {
            lemma_insert_keeps_others(
                h1,
                "Cache-Control"@,
                "max-age="@ + crate::text::decimal(crate::connection::CACHE_MAX_AGE_SECS as nat),
                cl,
            );
        }
    }
}

proof fn lemma_encode_concat(a: Seq<char>, b: Seq<char>)
    ensures
        encode_utf8(a + b) == encode_utf8(a) + encode_utf8(b),
    decreases a.len(),
{
    if a.len() > 0 {
        lemma_encode_concat(a.drop_first(), b);
        assert((a + b).drop_first() =~= a.drop_first() + b);
        assert(encode_utf8(a + b) =~= encode_utf8(a) + encode_utf8(b));
    } else {
        assert(a + b =~= b);
    }
}

/// A response goes out as its status line, its header lines, a blank line
/// and its body; so two responses with the same version, status and body
/// put out the same status line and the same body, whatever order their
/// headers are in.
pub proof fn lemma_wire_layout(v: Version, s: StatusCode, h1: HeaderSeq, h2: HeaderSeq, body: Seq<u8>)
    ensures
        wire(v, s, h1, body) == encode_utf8(status_line(v, s)) + encode_utf8(header_lines(h1))
            + encode_utf8("\r\n"@) + body,
        ({
            let n = encode_utf8(status_line(v, s)).len() as int;
            let w1 = wire(v, s, h1, body);
            let w2 = wire(v, s, h2, body);
            &&& w1.subrange(0, n) == w2.subrange(0, n)
            &&& w1.subrange(w1.len() - body.len(), w1.len() as int) == body
            &&& w2.subrange(w2.len() - body.len(), w2.len() as int) == body
        }),
{
    let sl = status_line(v, s);
    lemma_encode_concat(sl + header_lines(h1), "\r\n"@);
    lemma_encode_concat(sl, header_lines(h1));
    lemma_encode_concat(sl + header_lines(h2), "\r\n"@);
    lemma_encode_concat(sl, header_lines(h2));
    let n = encode_utf8(sl).len() as int;
    let w1 = wire(v, s, h1, body);
    let w2 = wire(v, s, h2, body);
    assert(w1.subrange(0, n) =~= encode_utf8(sl));
    assert(w2.subrange(0, n) =~= encode_utf8(sl));
    assert(w1.subrange(w1.len() - body.len(), w1.len() as int) =~= body);
    assert(w2.subrange(w2.len() - body.len(), w2.len() as int) =~= body);
}

/// A client reading a response finds UTF-8 text that ends with an empty
/// line (the status line and the headers) and then exactly the body.
pub proof fn lemma_wire_readable(v: Version, s: StatusCode, h: HeaderSeq, body: Seq<u8>)
    ensures
        ({
            let head = head_text(v, s, h);
            let w = wire(v, s, h, body);
            let n = encode_utf8(head).len() as int;
            &&& valid_utf8(w.subrange(0, n))
            &&& decode_utf8(w.subrange(0, n)) == head
            &&& head.len() >= 4
            &&& head.subrange(head.len() - 4, head.len() as int) == "\r\n\r\n"@
            &&& w.subrange(n, w.len() as int) == body
        }),
{
    reveal_strlit("\r\n");
    reveal_strlit("\r\n\r\n");
    let head = head_text(v, s, h);
    let w = wire(v, s, h, body);
    let n = encode_utf8(head).len() as int;
    assert(w.subrange(0, n) =~= encode_utf8(head));
    assert(w.subrange(n, w.len() as int) =~= body);
    encode_utf8_valid_utf8(head);
    encode_utf8_decode_utf8(head);
    let sl = status_line(v, s);
    let a = sl + header_lines(h);
    if h.len() == 0 {
        assert(header_lines(h) =~= Seq::<char>::empty());
        assert(a[a.len() - 1] == sl[sl.len() - 1]);
    } else {
        let hl = header_lines(h);
        assert(hl[hl.len() - 1] == '\n');
        assert(hl[hl.len() - 2] == '\r');
    }
    assert(a.len() >= 2);
    assert(a[a.len() - 1] == '\n');
    assert(a[a.len() - 2] == '\r');
    assert(head =~= a + "\r\n"@);
    assert(head.subrange(head.len() - 4, head.len() as int) =~= "\r\n\r\n"@);
}

/// How one request/response cycle of a connection between requests ends.
pub enum CycleEnd {
    /// Nothing is written and the connection ends.
    Silent,
    /// The 400 page is written and the connection ends.
    Rejected,
    /// The handler's response goes out as `bytes`; `open` says whether the
    /// connection then waits for another request.
    Answered { bytes: Seq<u8>, open: bool },
}

/// One cycle, step by step as `begin`, `received`, `handled` and `written`
/// state it: started at `t0`, the bytes `d` read by `t1`, the handler
/// answering a well-formed request with the response `(v, s, h, body)`, and
/// every write succeeding.
pub open spec fn cycle(
    c: ConnectionView,
    t0: u64,
    d: Seq<u8>,
    t1: u64,
    v: Version,
    s: StatusCode,
    h: HeaderSeq,
    body: Seq<u8>,
) -> CycleEnd {
    if !has_quota_left(c) {
        CycleEnd::Silent
    } else {
        let c1 = begun(c, t0);
        if idle_expired(c1, t1) {
            CycleEnd::Silent
        } else {
            match parse_request(d) {
                RequestParse::NoData => CycleEnd::Silent,
                RequestParse::Truncated => CycleEnd::Silent,
                RequestParse::NotText => CycleEnd::Rejected,
                RequestParse::BadRequestLine => CycleEnd::Rejected,
                RequestParse::Parsed { method, path, version, headers, .. } => {
                    let p = negotiated(c1, method, path, version, headers);
                    CycleEnd::Answered {
                        bytes: answer(p, v, s, h, body),
                        open: p->Processing_keep_alive,
                    }
                },
            }
        }
    }
}

/// A request that keeps HTTP/1.1's default, asking `Connection: keep-alive`
/// with no `Keep-Alive` header, arriving within the idle timeout on a
/// connection with quota left, is answered with the handler's response
/// marked keep-alive with the server's idle timeout and remaining quota, and
/// the connection stays open.
pub proof fn lemma_keep_alive_cycle(
    c: ConnectionView,
    t0: u64,
    d: Seq<u8>,
    t1: u64,
    v: Version,
    s: StatusCode,
    h: HeaderSeq,
    body: Seq<u8>,
    conn_value: Seq<char>,
)
    requires
        has_quota_left(c),
        !idle_expired(begun(c, t0), t1),
        parse_request(d) is Parsed,
        parse_request(d)->Parsed_version == Version::HTTP1_1,
        lookup(parse_request(d)->Parsed_headers, "connection"@) == Some(conn_value),
        lower_of(conn_value) == "keep-alive"@,
        lookup(parse_request(d)->Parsed_headers, "keep-alive"@) is None,
    ensures
        ({
            let remaining = (c.max_requests - c.request_count - 1) as usize;
            let method = parse_request(d)->Parsed_method;
            let path = parse_request(d)->Parsed_path;
            let cache = crate::connection::cacheable_path(path);
            cycle(c, t0, d, t1, v, s, h, body) == CycleEnd::Answered {
                bytes: wire(
                    v,
                    s,
                    annotated(h, true, c.idle_timeout, remaining, cache),
                    if method == Method::HEAD {
                        Seq::empty()
                    } else {
                        body
                    },
                ),
                open: true,
            }
        }),
{
    let c1 = begun(c, t0);
    lemma_keep_alive_by_default(
        c1,
        parse_request(d)->Parsed_method,
        parse_request(d)->Parsed_path,
        parse_request(d)->Parsed_headers,
        conn_value,
    );
}

/// A request arriving after the idle timeout gets no answer, whatever it
/// is.
pub proof fn lemma_idle_cycle(
    c: ConnectionView,
    t0: u64,
    d: Seq<u8>,
    t1: u64,
    v: Version,
    s: StatusCode,
    h: HeaderSeq,
    body: Seq<u8>,
)
    requires
        idle_expired(begun(c, t0), t1),
    ensures
        cycle(c, t0, d, t1, v, s, h, body) == CycleEnd::Silent,
{
}

/// A request line of fewer than three words, arriving in time on a
/// connection with quota left, is rejected (with the 400 page and
/// `Connection: close`, as `lemma_rejection_closes` shows), and the handler
/// is never asked.
pub proof fn lemma_malformed_cycle(
    c: ConnectionView,
    t0: u64,
    d: Seq<u8>,
    t1: u64,
    v: Version,
    s: StatusCode,
    h: HeaderSeq,
    body: Seq<u8>,
)
    requires
        has_quota_left(c),
        !idle_expired(begun(c, t0), t1),
        d.len() > 0,
        request_line_words(d) matches Some(w) && w.len() < 3,
    ensures
        cycle(c, t0, d, t1, v, s, h, body) == CycleEnd::Rejected,
{
}

/// Two requests alike but for GET and HEAD, answered by the handler with the
/// same response, put out the same head, `Content-Length` of the full body
/// included; the HEAD answer has no body.
pub proof fn lemma_head_get_cycle(
    c: ConnectionView,
    t0: u64,
    get: Seq<u8>,
    head: Seq<u8>,
    t1: u64,
    v: Version,
    s: StatusCode,
    h: HeaderSeq,
    body: Seq<u8>,
)
    requires
        has_quota_left(c),
        !idle_expired(begun(c, t0), t1),
        parse_request(get) is Parsed,
        parse_request(head) is Parsed,
        parse_request(get)->Parsed_method == Method::GET,
        parse_request(head)->Parsed_method == Method::HEAD,
        parse_request(get)->Parsed_path == parse_request(head)->Parsed_path,
        parse_request(get)->Parsed_version == parse_request(head)->Parsed_version,
        parse_request(get)->Parsed_headers == parse_request(head)->Parsed_headers,
    ensures
        cycle(c, t0, get, t1, v, s, h, body) matches CycleEnd::Answered { bytes: g, open: og }
            && cycle(c, t0, head, t1, v, s, h, body) matches CycleEnd::Answered {
            bytes: hb,
            open: oh,
        } && og == oh && exists|hs: HeaderSeq|
            g == wire(v, s, hs, body) && hb == wire(v, s, hs, Seq::empty()) && exact(
                hs,
                "Content-Length"@,
            ) == exact(h, "Content-Length"@),
{
    let c1 = begun(c, t0);
    let pg = negotiated(
        c1,
        Method::GET,
        parse_request(get)->Parsed_path,
        parse_request(get)->Parsed_version,
        parse_request(get)->Parsed_headers,
    );
    let hs = annotated(
        h,
        pg->Processing_keep_alive,
        pg->Processing_timeout,
        pg->Processing_max_remaining,
        pg->Processing_cache,
    );
    lemma_head_like_get(
        v,
        s,
        h,
        body,
        pg->Processing_keep_alive,
        pg->Processing_timeout,
        pg->Processing_max_remaining,
        pg->Processing_cache,
    );
    assert(wire(v, s, hs, body) == answer(pg, v, s, h, body));
}

/// The handler's response went out and the connection waits for more.
pub open spec fn answered_open(e: CycleEnd) -> bool {
    e matches CycleEnd::Answered { open, .. } && open
}

/// The connection as the `k`-th of a run of kept-open cycles finds it: `k`
/// more requests counted. (Its clock and counters do not enter the next
/// cycle's decisions: `begun` resets the activity time.)
pub open spec fn after_rounds(c: ConnectionView, k: nat) -> ConnectionView {
    ConnectionView { request_count: (c.request_count + k) as usize, ..c }
}

/// Over one connection with room for `n` more requests, `n` HTTP/1.1
/// requests asking `Connection: keep-alive` with no `Keep-Alive` header,
/// each arriving within the idle timeout, are each answered with the
/// handler's response marked keep-alive, and the connection stays open
/// after every one of them.
pub proof fn lemma_keep_alive_rounds(
    c: ConnectionView,
    n: nat,
    t0: Seq<u64>,
    d: Seq<Seq<u8>>,
    t1: Seq<u64>,
    conn_value: Seq<Seq<char>>,
    v: Version,
    s: StatusCode,
    h: HeaderSeq,
    body: Seq<u8>,
)
    requires
        c.request_count + n <= c.max_requests,
        t0.len() == n && d.len() == n && t1.len() == n && conn_value.len() == n,
        forall|k: int| 0 <= k < n ==> !#[trigger] idle_expired(begun(after_rounds(c, k as nat), t0[k]), t1[k]),
        forall|k: int| 0 <= k < n ==> #[trigger] parse_request(d[k]) is Parsed,
        forall|k: int| 0 <= k < n ==> (#[trigger] parse_request(d[k]))->Parsed_version == Version::HTTP1_1,
        forall|k: int|
            0 <= k < n ==> lookup((#[trigger] parse_request(d[k]))->Parsed_headers, "connection"@)
                == Some(conn_value[k]),
        forall|k: int| 0 <= k < n ==> lower_of(#[trigger] conn_value[k]) == "keep-alive"@,
        forall|k: int|
            0 <= k < n ==> lookup((#[trigger] parse_request(d[k]))->Parsed_headers, "keep-alive"@) is None,
    ensures
        forall|k: int|
            0 <= k < n ==> answered_open(
                #[trigger] cycle(after_rounds(c, k as nat), t0[k], d[k], t1[k], v, s, h, body),
            ),
{
    assert forall|k: int| 0 <= k < n implies answered_open(
        #[trigger] cycle(after_rounds(c, k as nat), t0[k], d[k], t1[k], v, s, h, body),
    ) by {
        let ck = after_rounds(c, k as nat);
        assert(has_quota_left(ck));
        assert(parse_request(d[k]) is Parsed);
        assert(lower_of(conn_value[k]) == "keep-alive"@);
        lemma_keep_alive_cycle(ck, t0[k], d[k], t1[k], v, s, h, body, conn_value[k]);
    }
}

} // verus!
