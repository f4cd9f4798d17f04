use xener::{IoKind, ServerError, StatusCode, error_to_response};

#[test]
fn test_server_error_display() {
    let error = ServerError::NotFound("/index.html".to_string());
    assert_eq!(error.to_string(), "Not found: /index.html");
}

#[test]
fn test_error_to_response() {
    let error = ServerError::NotFound("index.html".to_string());
    let response = error_to_response(&error);
    assert_eq!(response.status.code(), 404);
}

#[test]
fn error_messages() {
    assert_eq!(ServerError::Io(IoKind::BrokenPipe).to_string(), "I/O error: broken pipe");
    assert_eq!(ServerError::Http("x".to_string()).to_string(), "HTTP error: x");
    assert_eq!(ServerError::Config("x".to_string()).to_string(), "Configuration error: x");
    assert_eq!(ServerError::HttpParse("x".to_string()).to_string(), "Error parsing HTTP request: x");
    assert_eq!(ServerError::ServerBusy.to_string(), "Server is too busy to handle the request");
    assert_eq!(ServerError::Forbidden("x".to_string()).to_string(), "Access denied: x");
    assert_eq!(ServerError::Timeout("x".to_string()).to_string(), "Request timeout: x");
    assert_eq!(ServerError::Other("plain".to_string()).to_string(), "plain");
}

#[test]
fn error_pages() {
    let r = error_to_response(&ServerError::ServerBusy);
    assert_eq!(r.status, StatusCode::ServiceUnavailable);
    assert_eq!(r.headers.get("Retry-After"), Some(&"60".to_string()));
    assert_eq!(r.headers.get("Content-Type"), Some(&"text/html".to_string()));
    let r = error_to_response(&ServerError::Forbidden("no".to_string()));
    assert_eq!(r.status, StatusCode::Forbidden);
    assert!(String::from_utf8_lossy(&r.body).contains("<p>Access denied: no</p>"));
    let r = error_to_response(&ServerError::HttpParse("bad".to_string()));
    assert_eq!(r.status, StatusCode::BadRequest);
    let r = error_to_response(&ServerError::Timeout("slow".to_string()));
    assert_eq!(r.status.code(), 408);
    let r = error_to_response(&ServerError::Io(IoKind::Other));
    assert_eq!(r.status, StatusCode::InternalServerError);
    assert_eq!(r.headers.get("Content-Length"), Some(&r.body.len().to_string()));
    let r = error_to_response(&ServerError::NotFound("/x".to_string()));
    assert!(String::from_utf8_lossy(&r.body).contains("The requested resource '/x' was not found"));
}

#[test]
fn yaml_error_becomes_config_error() {
    let e = serde_yml::from_str::<u32>("[not a number").unwrap_err();
    match ServerError::from_yaml(&e) {
        ServerError::Config(m) => {
            assert!(m.starts_with("YAML parsing error: "));
            assert!(m.len() > "YAML parsing error: ".len());
        }
        _ => panic!("expected a configuration error"),
    }
}
