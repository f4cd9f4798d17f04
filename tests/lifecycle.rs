use xener::connection_pool::ConnectionPool;
use xener::server::capacity_rejection;
use xener::{Action, HttpConnection, Phase, Request, Response, ServerConfig, ServerError};

fn config_with(max_requests: usize, idle: u64) -> ServerConfig {
    let mut c = ServerConfig::default();
    c.max_requests_per_connection = Some(max_requests);
    c.keep_alive_timeout = Some(idle);
    c
}

/// Runs one request through the machine; returns the bytes sent, if any,
/// and the final action.
fn cycle(conn: &mut HttpConnection, raw: &[u8], body: &str, now: u64) -> (Option<String>, Action) {
    match conn.begin(now) {
        Action::Read => {}
        other => return (None, other),
    }
    let req = Request::from_bytes(raw);
    let dispatched = conn.received(req, raw.len(), now + 1);
    let request = match dispatched {
        Action::Dispatch(r) => r,
        Action::Send(bytes) => {
            let text = String::from_utf8_lossy(&bytes).to_string();
            let after = conn.written(Ok(()), now + 2);
            return (Some(text), after);
        }
        other => return (None, other),
    };
    let response = Response::new().with_text(body);
    let bytes = match conn.handled(response) {
        Action::Send(b) => b,
        _ => panic!("expected bytes to send"),
    };
    let _ = request;
    let after = conn.written(Ok(()), now + 2);
    (Some(String::from_utf8_lossy(&bytes).to_string()), after)
}

#[test]
fn quota_answers_exactly_k_requests() {
    let config = config_with(2, 30);
    let mut conn = HttpConnection::new("10.0.0.1:5000".to_string(), &config, 0);
    let raw = b"GET / HTTP/1.1\r\n\r\n";
    let (a, act) = cycle(&mut conn, raw, "one", 10);
    assert!(a.is_some() && matches!(act, Action::Continue));
    let (b, act) = cycle(&mut conn, raw, "two", 20);
    assert!(b.is_some() && matches!(act, Action::Continue));
    let (c, act) = cycle(&mut conn, raw, "three", 30);
    assert!(c.is_none());
    assert!(matches!(act, Action::Close));
    assert_eq!(conn.request_count(), 2);
    assert_eq!(conn.stats().requests_handled, 2);
}

#[test]
fn keep_alive_three_round_trips() {
    let config = config_with(1000, 30);
    let mut conn = HttpConnection::new("10.0.0.1:5000".to_string(), &config, 0);
    let raw = b"GET /index.html HTTP/1.1\r\nConnection: keep-alive\r\n\r\n";
    for i in 0..3u64 {
        let (text, act) = cycle(&mut conn, raw, "page", 100 * i);
        let text = text.unwrap();
        assert!(text.starts_with("HTTP/1.1 200 OK\r\n"));
        assert!(text.contains("Connection: keep-alive\r\n"));
        assert!(text.contains(&format!("Keep-Alive: timeout=30, max={}\r\n", 999 - i)));
        assert!(text.ends_with("\r\n\r\npage"));
        assert!(matches!(act, Action::Continue));
    }
    assert_eq!(conn.phase(), Phase::Idle);
}

#[test]
fn close_requested_ends_after_answer() {
    let config = config_with(1000, 30);
    let mut conn = HttpConnection::new("peer".to_string(), &config, 0);
    let (text, act) = cycle(&mut conn, b"GET / HTTP/1.1\r\nConnection: close\r\n\r\n", "x", 0);
    assert!(text.unwrap().contains("Connection: close\r\n"));
    assert!(matches!(act, Action::Close));
}

#[test]
fn idle_connection_expires_without_answer() {
    let config = config_with(1000, 5);
    let mut conn = HttpConnection::new("peer".to_string(), &config, 0);
    assert!(matches!(conn.begin(1_000), Action::Read));
    let req = Request::from_bytes(b"GET / HTTP/1.1\r\n\r\n");
    let act = conn.received(req, 18, 1_000 + 5_001);
    assert!(matches!(act, Action::Close));
    assert_eq!(conn.phase(), Phase::Closed);
    assert!(conn.is_expired(7_000));
    assert!(!conn.is_expired(6_000));
}

#[test]
fn malformed_request_line_gets_400_and_close() {
    let config = config_with(1000, 30);
    let mut conn = HttpConnection::new("peer".to_string(), &config, 0);
    let (text, act) = cycle(&mut conn, b"GET\r\n\r\n", "", 0);
    let text = text.unwrap();
    assert!(text.starts_with("HTTP/1.1 400 Bad Request\r\n"));
    assert!(text.contains("Connection: close\r\n"));
    assert!(matches!(act, Action::Close));
    let mut other = HttpConnection::new("peer2".to_string(), &config, 0);
    let (text, act) = cycle(&mut other, b"GET / HTTP/1.1\r\n\r\n", "fine", 0);
    assert!(text.unwrap().starts_with("HTTP/1.1 200 OK"));
    assert!(matches!(act, Action::Continue));
}

#[test]
fn benign_read_failures_close_quietly() {
    let config = config_with(1000, 30);
    for kind in [xener::IoKind::TimedOut, xener::IoKind::UnexpectedEof, xener::IoKind::ConnectionReset, xener::IoKind::ConnectionAborted] {
        let mut conn = HttpConnection::new("peer".to_string(), &config, 0);
        assert!(matches!(conn.begin(0), Action::Read));
        assert!(matches!(conn.received(Err(ServerError::Io(kind)), 0, 1), Action::Close));
    }
}

#[test]
fn rejection_write_failures() {
    let config = config_with(1000, 30);
    let mut conn = HttpConnection::new("peer".to_string(), &config, 0);
    assert!(matches!(conn.begin(0), Action::Read));
    assert!(matches!(conn.received(Request::from_bytes(b"BAD\r\n"), 5, 1), Action::Send(_)));
    assert!(matches!(conn.written(Err(ServerError::Io(xener::IoKind::BrokenPipe)), 2), Action::Close));
    let mut conn = HttpConnection::new("peer".to_string(), &config, 0);
    assert!(matches!(conn.begin(0), Action::Read));
    assert!(matches!(conn.received(Request::from_bytes(b"BAD\r\n"), 5, 1), Action::Send(_)));
    assert!(matches!(conn.written(Err(ServerError::Io(xener::IoKind::Other)), 2), Action::Fail(_)));
}

#[test]
fn head_answer_matches_get_without_body() {
    let config = config_with(1000, 30);
    let mut get = HttpConnection::new("p".to_string(), &config, 0);
    let mut head = HttpConnection::new("p".to_string(), &config, 0);
    let (g, _) = cycle(&mut get, b"GET /a.txt HTTP/1.1\r\n\r\n", "twelve bytes", 0);
    let (h, _) = cycle(&mut head, b"HEAD /a.txt HTTP/1.1\r\n\r\n", "twelve bytes", 0);
    let g = g.unwrap();
    let h = h.unwrap();
    assert!(g.ends_with("\r\n\r\ntwelve bytes"));
    assert!(h.ends_with("\r\n\r\n"));
    assert_eq!(&g[..g.len() - "twelve bytes".len()], h.as_str());
    assert!(h.contains("Content-Length: 12\r\n"));
}

#[test]
fn stylesheets_are_cacheable_on_persistent_connections() {
    let config = config_with(1000, 30);
    let mut conn = HttpConnection::new("p".to_string(), &config, 0);
    let (t, _) = cycle(&mut conn, b"GET /site.css HTTP/1.1\r\n\r\n", "x", 0);
    assert!(t.unwrap().contains("Cache-Control: max-age=3600\r\n"));
    let mut conn = HttpConnection::new("p".to_string(), &config, 0);
    let (t, _) = cycle(&mut conn, b"GET /app.js HTTP/1.0\r\n\r\n", "x", 0);
    assert!(!t.unwrap().contains("Cache-Control"));
}

#[test]
fn client_keep_alive_max_is_capped_by_quota() {
    let config = config_with(3, 30);
    let mut conn = HttpConnection::new("p".to_string(), &config, 0);
    let (t, _) = cycle(&mut conn, b"GET / HTTP/1.1\r\nKeep-Alive: timeout=9, max=50\r\n\r\n", "x", 0);
    assert!(t.unwrap().contains("Keep-Alive: timeout=9, max=2\r\n"));
}

#[test]
fn events_out_of_order_fail() {
    let config = config_with(3, 30);
    let mut conn = HttpConnection::new("p".to_string(), &config, 0);
    assert!(matches!(conn.handled(Response::new()), Action::Fail(_)));
    assert_eq!(conn.phase(), Phase::Closed);
}

#[test]
fn ledger_admits_up_to_limit() {
    let config = ServerConfig::with_params("127.0.0.1", 8080, 3, "/srv");
    let mut pool = ConnectionPool::new(&config);
    assert!(pool.try_admit());
    assert!(pool.try_admit());
    assert!(pool.try_admit());
    assert!(!pool.try_admit());
    assert_eq!(pool.active_count(), 3);
    let conn = pool.get_connection("a".to_string(), 0);
    pool.release_connection(conn, 10, true);
    assert_eq!(pool.active_count(), 2);
    assert_eq!(pool.idle_count(), 1);
    assert!(pool.try_admit());
    let rejection = String::from_utf8(capacity_rejection()).unwrap();
    assert!(rejection.starts_with("HTTP/1.1 503 Service Unavailable\r\n"));
    assert!(rejection.contains("Retry-After: 60\r\n"));
}

#[test]
fn ledger_discards_unusable_and_prunes_expired() {
    let mut config = ServerConfig::with_params("127.0.0.1", 8080, 2, "/srv");
    config.keep_alive_timeout = Some(1);
    let mut pool = ConnectionPool::new(&config);
    assert!(pool.try_admit());
    let conn = pool.get_connection("a".to_string(), 0);
    pool.release_connection(conn, 0, false);
    assert_eq!(pool.idle_count(), 0);
    assert_eq!(pool.active_count(), 0);
    let c1 = pool.get_connection("b".to_string(), 0);
    let c2 = pool.get_connection("c".to_string(), 5_000);
    pool.release_connection(c1, 500, true);
    pool.release_connection(c2, 5_000, true);
    assert_eq!(pool.idle_count(), 2);
    assert_eq!(pool.active_count(), 0);
    assert_eq!(pool.prune_expired(5_500), 1);
    assert_eq!(pool.idle_count(), 1);
}
