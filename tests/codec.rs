use xener::request::keep_alive_decision;
use xener::{IoKind, Method, Request, Response, ServerError, StatusCode, Version};

fn wire_of(response: &Response) -> String {
    let mut buf = Vec::new();
    response.write_to(&mut buf).unwrap();
    String::from_utf8_lossy(&buf).to_string()
}

#[test]
fn test_response_write_to() {
    let response = Response::new()
        .with_status(StatusCode::OK)
        .with_content_type("text/plain")
        .with_header("X-Test", "Xener Server")
        .with_text("Hello!");

    let mut buf = Vec::new();
    response.write_to(&mut buf).unwrap();
    let result = String::from_utf8_lossy(&buf);

    assert!(result.starts_with("HTTP/1.1 200 OK"));
    assert!(result.contains("Content-Type: text/plain"));
    assert!(result.contains("Content-Length: 6"));
    assert!(result.contains("X-Test: Xener Server"));
    assert!(result.contains("Hello!"));
}

#[test]
fn test_request_from_stream_valid() {
    let raw = b"GET /test HTTP/1.1\r\nContent-Length: 5\r\n\r\nHello";

    let request = Request::from_bytes(raw).unwrap();

    assert_eq!(request.path, "/test".to_string());
    assert_eq!(request.method, Method::from("GET"));
    assert_eq!(request.version, Version::from("HTTP/1.1"));
    assert_eq!(request.body, b"Hello");
    assert_eq!(request.get_header("Content-Length"), Some(&"5".to_string()))
}

#[test]
fn serialization_is_exact() {
    let response = Response::new().with_text("hi");
    let text = wire_of(&response);
    assert_eq!(
        text,
        "HTTP/1.1 200 OK\r\nContent-Type: text/html\r\nServer: Xener/0.0.1\r\nContent-Length: 2\r\n\r\nhi"
    );
}

#[test]
fn serialization_is_deterministic() {
    let a = Response::new().with_status(StatusCode::NotFound).with_header("A", "1").with_header("B", "2").with_text("body");
    let b = Response::new().with_status(StatusCode::NotFound).with_header("B", "2").with_header("A", "1").with_text("body");
    let wa = wire_of(&a);
    let wb = wire_of(&b);
    assert_eq!(wa, wire_of(&a));
    assert!(wa.starts_with("HTTP/1.1 404 Not Found\r\n"));
    assert!(wb.starts_with("HTTP/1.1 404 Not Found\r\n"));
    assert!(wa.ends_with("\r\n\r\nbody"));
    assert!(wb.ends_with("\r\n\r\nbody"));
    let parsed_len = wa.split("\r\n\r\n").next().unwrap().lines().find(|l| l.starts_with("Content-Length: ")).unwrap();
    assert_eq!(parsed_len, "Content-Length: 4");
}

#[test]
fn header_set_twice_keeps_one_entry() {
    let r = Response::new().with_header("X", "1").with_header("X", "2");
    assert_eq!(r.headers.get("X"), Some(&"2".to_string()));
    assert_eq!(r.headers.len(), 3);
}

#[test]
fn status_table() {
    assert_eq!(StatusCode::OK.code(), 200);
    assert_eq!(StatusCode::NotFound.reason_phrase(), "Not Found");
    assert_eq!(StatusCode::RequestHeaderFieldsTooLarge.code(), 431);
    assert_eq!(StatusCode::GatewayTimeout.reason_phrase(), "Gateway Timeout");
    assert_eq!(StatusCode::BadRequest.status_text(), "400 Bad Request");
    assert_eq!(StatusCode::RequestTimeout.code(), 408);
}

#[test]
fn method_and_version_tokens() {
    assert_eq!(Method::from("get"), Method::GET);
    assert_eq!(Method::from("Patch"), Method::PATCH);
    assert_eq!(Method::from("BREW"), Method::UNKNOWN);
    assert_eq!(Version::from("HTTP/1.0"), Version::HTTP1_0);
    assert_eq!(Version::from("http/1.1"), Version::UNKNOWN);
    assert_eq!(Version::UNKNOWN.as_text(), "HTTP/1.1");
}

#[test]
fn parse_headers_case_and_trim() {
    let raw = b"POST /a%20b HTTP/1.0\r\nHost :  example.org  \r\ncontent-length: 3\r\nbroken line\r\n\r\nabcdef";
    let r = Request::from_bytes(raw).unwrap();
    assert_eq!(r.method, Method::POST);
    assert_eq!(r.version, Version::HTTP1_0);
    assert_eq!(r.path, "/a%20b");
    assert_eq!(r.headers.get("Host "), Some(&"example.org".to_string()));
    assert_eq!(r.get_header("HOST "), Some(&"example.org".to_string()));
    assert_eq!(r.body, b"abc");
    assert_eq!(r.headers.len(), 2);
}

#[test]
fn parse_errors() {
    assert!(matches!(Request::from_bytes(b""), Err(ServerError::Io(IoKind::UnexpectedEof))));
    assert!(matches!(Request::from_bytes(b"GET\r\n\r\n"), Err(ServerError::HttpParse(_))));
    assert!(matches!(Request::from_bytes(b"GET /\r\n\r\n"), Err(ServerError::HttpParse(_))));
    assert!(matches!(Request::from_bytes(b"GET / HTTP/1.1\r\nContent-Length: 10\r\n\r\nshort"), Err(ServerError::Io(IoKind::UnexpectedEof))));
    assert!(matches!(Request::from_bytes(b"GET /\xff HTTP/1.1\r\n\r\n"), Err(ServerError::Io(IoKind::InvalidData))));
    assert!(matches!(Request::from_bytes(b"GET / HTTP/1.1\r\nX: \xc3\x28\r\n\r\n"), Err(ServerError::Io(IoKind::InvalidData))));
}

#[test]
fn parse_without_blank_line_or_bad_length() {
    let r = Request::from_bytes(b"HEAD /x HTTP/1.1").unwrap();
    assert_eq!(r.method, Method::HEAD);
    assert!(r.body.is_empty());
    let r = Request::from_bytes(b"GET / HTTP/1.1\r\nContent-Length: -1\r\n\r\nzz").unwrap();
    assert!(r.body.is_empty());
    let r = Request::from_bytes(b"GET / HTTP/1.1\r\nContent-Length: +2\r\n\r\nzz").unwrap();
    assert_eq!(r.body, b"zz");
    let r = Request::from_bytes("GET /caf\u{e9} HTTP/1.1\r\n\r\n".as_bytes()).unwrap();
    assert_eq!(r.path, "/caf\u{e9}");
}

#[test]
fn body_length_from_head() {
    assert_eq!(Request::announced_body_length(b"PUT / HTTP/1.1\r\nContent-Length: 12\r\n\r\n"), Some(12));
    assert_eq!(Request::announced_body_length(b"PUT / HTTP/1.1\r\n\r\n"), None);
    assert_eq!(Request::announced_body_length(b"PUT\r\n\r\n"), None);
    assert!(xener::request::ends_head(b"\r\n"));
    assert!(xener::request::ends_head(b"  \t\r\n"));
    assert!(!xener::request::ends_head(b"Host: x\r\n"));
}

#[test]
fn keep_alive_wishes() {
    let r = Request::from_bytes(b"GET / HTTP/1.1\r\n\r\n").unwrap();
    assert!(r.wants_keep_alive());
    let r = Request::from_bytes(b"GET / HTTP/1.1\r\nConnection: Close\r\n\r\n").unwrap();
    assert!(!r.wants_keep_alive());
    let r = Request::from_bytes(b"GET / HTTP/1.0\r\n\r\n").unwrap();
    assert!(!r.wants_keep_alive());
    let r = Request::from_bytes(b"GET / HTTP/1.0\r\nconnection: Keep-Alive\r\n\r\n").unwrap();
    assert!(r.wants_keep_alive());
    let r = Request::from_bytes(b"GET / HTTP/2.0\r\n\r\n").unwrap();
    assert!(!r.wants_keep_alive());
}

#[test]
fn keep_alive_parameters() {
    let r = Request::from_bytes(b"GET / HTTP/1.1\r\nKeep-Alive: max=7,  timeout=15\r\n\r\n").unwrap();
    assert_eq!(r.keep_alive_timeout(), Some(15));
    assert_eq!(r.keep_alive_max(), Some(7));
    let r = Request::from_bytes(b"GET / HTTP/1.1\r\nkeep-alive: timeout=x, timeout=5\r\n\r\n").unwrap();
    assert_eq!(r.keep_alive_timeout(), None);
    assert_eq!(r.keep_alive_max(), None);
    let r = Request::from_bytes(b"GET / HTTP/1.1\r\nKeep-Alive: timeout=99999999999999999999\r\n\r\n").unwrap();
    assert_eq!(r.keep_alive_timeout(), None);
}

#[test]
fn keep_alive_annotation() {
    let r = Response::new().with_keep_alive(true, Some(5), Some(99));
    assert_eq!(r.headers.get("Connection"), Some(&"keep-alive".to_string()));
    assert_eq!(r.headers.get("Keep-Alive"), Some(&"timeout=5, max=99".to_string()));
    let r = Response::new().with_keep_alive(false, Some(5), Some(99));
    assert_eq!(r.headers.get("Connection"), Some(&"close".to_string()));
    assert_eq!(r.headers.get("Keep-Alive"), None);
    let r = Response::new().with_cache_control(3600);
    assert_eq!(r.headers.get("Cache-Control"), Some(&"max-age=3600".to_string()));
}

#[test]
fn unicode_case_folding_matches_std() {
    let raw = "GET / HTTP/1.0\r\nConnection: \u{212a}eep-alive\r\n\r\n";
    let r = Request::from_bytes(raw.as_bytes()).unwrap();
    assert!(r.wants_keep_alive());
    let raw = "GET / HTTP/1.1\r\n\u{212a}eep-Alive: timeout=4\r\n\r\n";
    let r = Request::from_bytes(raw.as_bytes()).unwrap();
    assert!(r.get_header("keep-alive").is_some());
    assert_eq!(r.keep_alive_timeout(), Some(4));
    assert_eq!(Method::from("PO\u{17f}T"), Method::POST);
    let r = Request::from_bytes("po\u{17f}t / HTTP/1.1\r\n\r\n".as_bytes()).unwrap();
    assert_eq!(r.method, Method::POST);
}

#[test]
fn decisions_on_folded_values() {
    assert!(keep_alive_decision(Version::HTTP1_1, None));
    assert!(!keep_alive_decision(Version::HTTP1_1, Some("keep-alive, close")));
    assert!(!keep_alive_decision(Version::HTTP1_0, None));
    assert!(keep_alive_decision(Version::HTTP1_0, Some("keep-alive")));
    assert!(!keep_alive_decision(Version::HTTP1_0, Some("Keep-Alive")));
    assert!(!keep_alive_decision(Version::UNKNOWN, Some("keep-alive")));
    let upper: Vec<char> = "DELETE".chars().collect();
    assert_eq!(Method::from_upper(&upper), Method::DELETE);
    let lower: Vec<char> = "delete".chars().collect();
    assert_eq!(Method::from_upper(&lower), Method::UNKNOWN);
}
