use xener::server::{configured_workers, method_not_allowed, pool_size, route, worker_count};
use xener::{AccessLogger, Request, ServerConfig, StaticFileHandler, StatusCode};

#[test]
fn test_default_config() {
    let config = ServerConfig::default();
    assert_eq!(config.ip, "127.0.0.1");
    assert_eq!(config.port, 8080);
    assert_eq!(config.doc_root, "./static");
    assert_eq!(config.default_index, "index.html");
}

#[test]
fn config_address_and_limits() {
    let config = ServerConfig::with_params("0.0.0.0", 9090, 7, "/var/www");
    assert_eq!(config.address(), "0.0.0.0:9090");
    assert_eq!(config.connection_limit(), 7);
    assert_eq!(config.read_timeout_secs(), 30);
    assert_eq!(config.request_quota(), 1000);
    let mut c = ServerConfig::new();
    c.max_connections = None;
    c.write_timeout = Some(4);
    assert_eq!(c.connection_limit(), 100);
    assert_eq!(c.write_timeout_secs(), 4);
    assert_eq!(c.idle_timeout_secs(), 30);
}

fn handler(root: &str) -> StaticFileHandler {
    StaticFileHandler::new(&ServerConfig::with_params("127.0.0.1", 8080, 1, root))
}

#[test]
fn normalizes_paths_inside_root() {
    let h = handler("/srv/www");
    assert_eq!(h.normalize_path("/"), "index.html");
    assert_eq!(h.normalize_path(""), "index.html");
    assert_eq!(h.normalize_path("/../secured/file.txt"), "secured/file.txt");
    assert_eq!(h.normalize_path("//a/./b/../c"), "a/b/c");
    assert_eq!(h.normalize_path("/../"), "index.html");
    assert_eq!(h.file_path("/../secured/file.txt"), "/srv/www/secured/file.txt");
    assert_eq!(handler("/srv/www/").file_path("x"), "/srv/www/x");
    assert_eq!(handler("").file_path("/x"), "x");
}

#[test]
fn content_types() {
    let h = handler("/srv");
    assert_eq!(h.get_content_type("/srv/a/index.HTML"), "text/html");
    assert_eq!(h.get_content_type("/srv/style.css"), "text/css");
    assert_eq!(h.get_content_type("app.min.js"), "application/javascript");
    assert_eq!(h.get_content_type("p.jpeg"), "image/jpeg");
    assert_eq!(h.get_content_type("data.json"), "application/json");
    assert_eq!(h.get_content_type("notes.txt"), "text/plain");
    assert_eq!(h.get_content_type("/srv/.htaccess"), "application/octet-stream");
    assert_eq!(h.get_content_type("/srv/blob"), "application/octet-stream");
    assert_eq!(h.get_content_type("/srv.d/blob"), "application/octet-stream");
}

#[test]
fn serves_file_or_not_found() {
    let h = handler("/srv");
    let r = h.serve("/foo.txt", |p: String| {
        assert_eq!(p, "/srv/foo.txt");
        Some(b"Hello World!".to_vec())
    });
    assert_eq!(r.status, StatusCode::OK);
    assert_eq!(r.body, b"Hello World!");
    assert_eq!(r.headers.get("Content-Type"), Some(&"text/plain".to_string()));
    assert_eq!(r.headers.get("Content-Length"), Some(&"12".to_string()));
    let r = h.serve("/../secured/file.txt", |_p: String| None);
    assert_eq!(r.status, StatusCode::NotFound);
}

#[test]
fn routes_by_method() {
    let h = handler("/srv");
    let get = Request::from_bytes(b"GET / HTTP/1.1\r\n\r\n").unwrap();
    let r = route(&h, &get, |p: String| {
        assert_eq!(p, "/srv/index.html");
        Some(b"<html></html>".to_vec())
    });
    assert_eq!(r.status, StatusCode::OK);
    assert_eq!(r.headers.get("Content-Type"), Some(&"text/html".to_string()));
    let post = Request::from_bytes(b"POST / HTTP/1.1\r\n\r\n").unwrap();
    let r = route(&h, &post, |_p: String| panic!("not read"));
    assert_eq!(r.status, StatusCode::MethodNotAllowed);
    assert_eq!(r.headers.get("Allow"), Some(&"GET, HEAD".to_string()));
    assert_eq!(method_not_allowed().body, b"405 Method Not Allowed");
}

#[test]
fn worker_counts() {
    assert_eq!(worker_count(Some(3), 8), 3);
    assert_eq!(worker_count(None, 8), 16);
    assert_eq!(worker_count(None, usize::MAX), usize::MAX);
    assert_eq!(pool_size(0), 1);
    assert_eq!(pool_size(5), 5);
    let mut c = ServerConfig::default();
    assert!(configured_workers(&c) >= 2);
    c.thread_count = Some(4);
    assert_eq!(configured_workers(&c), 4);
}

#[test]
fn access_log_lines() {
    let line = xener::logging::access_line("10/Oct/2000:13:55:36 -0700", "127.0.0.1", "GET", "/a.gif", 200, 2326);
    assert_eq!(line, "127.0.0.1 - - [10/Oct/2000:13:55:36 -0700] \"GET /a.gif HTTP/1.1\" 200 2326");
    let off = AccessLogger::new(false, None);
    assert!(off.entry("01/Jan/2000:00:00:00 +0000", "c", "GET", "/", 200, 1).is_none());
    let on = AccessLogger::for_config(&ServerConfig::default());
    assert!(on.log_path().is_none());
    let e = on.entry("01/Jan/2000:00:00:00 +0000", "c", "GET", "/", 200, 1).unwrap();
    assert_eq!(e, "c - - [01/Jan/2000:00:00:00 +0000] \"GET / HTTP/1.1\" 200 1");
}

/// A document tree held in memory: (path, content) pairs.
fn files(entries: &[(&str, &str)]) -> impl Fn(String) -> Option<Vec<u8>> {
    let owned: Vec<(String, Vec<u8>)> = entries
        .iter()
        .map(|(p, c)| (p.to_string(), c.as_bytes().to_vec()))
        .collect();
    move |path: String| owned.iter().find(|(p, _)| *p == path).map(|(_, c)| c.clone())
}

#[test]
fn test_serve_file() {
    let root_path = "/tmp/xener-root";
    let server_config = ServerConfig::with_params("127.0.0.1", 8080, 1, root_path);

    let handler = StaticFileHandler::new(&server_config);
    let response = handler.serve("foo.txt", files(&[("/tmp/xener-root/foo.txt", "Hello World!")]));

    assert_eq!(response.status, StatusCode::OK, "unable to serve file");
    assert_eq!(response.body, b"Hello World!", "content mismatch");
    assert_eq!(
        response.headers.get("Content-Type"),
        Some(&"text/plain".to_string()),
        "mismatched content type"
    );
}

#[test]
fn test_serve_default_file_for_path() {
    let root_path = "/tmp/xener-root";
    let server_config = ServerConfig::with_params("127.0.0.1", 8080, 1, root_path);
    let handler = StaticFileHandler::new(&server_config);
    let response = handler.serve(
        "/",
        files(&[("/tmp/xener-root/index.html", "<html>hello world!</html>")]),
    );

    assert_eq!(response.status, StatusCode::OK, "unable to serve file");
    assert_eq!(response.body, b"<html>hello world!</html>", "content mismatch");
    assert_eq!(
        response.headers.get("Content-Type"),
        Some(&"text/html".to_string()),
        "mismatched content type"
    );
}

#[test]
fn test_prevent_directory_traversal() {
    let server_config = ServerConfig::with_params("127.0.0.1", 8080, 1, "/tmp/xener-root/public");
    let tree = files(&[
        ("/tmp/xener-root/public/file.txt", "public file!"),
        ("/tmp/xener-root/secured/file.txt", "secured content"),
    ]);

    let handler = StaticFileHandler::new(&server_config);
    let response = handler.serve("/../secured/file.txt", tree);

    assert_eq!(
        response.status,
        StatusCode::NotFound,
        "directory traversal is allowed"
    );
}

#[test]
fn content_type_reads_the_file_name_as_path_does() {
    let h = handler("/srv");
    assert_eq!(h.get_content_type("a/b.html/"), "text/html");
    assert_eq!(h.get_content_type("a/b.CSS/."), "text/css");
    assert_eq!(h.get_content_type("a/b.html/.."), "application/octet-stream");
    assert_eq!(h.get_content_type("/"), "application/octet-stream");
    assert_eq!(h.get_content_type("photo.\u{130}PG"), "application/octet-stream");
    assert_eq!(xener::static_handler::media_type("svg"), "image/svg+xml");
    assert_eq!(xener::static_handler::media_type("SVG"), "application/octet-stream");
}
