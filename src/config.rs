use vstd::prelude::*;

use crate::text::{decimal, push_char, push_decimal};

verus! {

/// Settings the server runs with; loading and validating them happens
/// before the core sees them.
pub struct ServerConfig {
    /// Address to bind to
    pub ip: String,
    /// Port to listen on
    pub port: u16,
    /// Most connections served at once
    pub max_connections: Option<usize>,
    /// Worker threads in the pool
    pub thread_count: Option<usize>,
    /// Seconds a read may wait
    pub read_timeout: Option<u64>,
    /// Seconds a write may wait
    pub write_timeout: Option<u64>,
    /// Seconds an open connection may sit idle
    pub keep_alive_timeout: Option<u64>,
    /// Most requests served over one connection
    pub max_requests_per_connection: Option<usize>,
    /// Document root for static files
    pub doc_root: String,
    /// File served for directory requests
    pub default_index: String,
    /// Whether errors are logged
    pub error_log: bool,
    /// Error log file; empty for stderr
    pub error_log_path: String,
    /// Whether requests are logged
    pub access_log: bool,
    /// Access log file; empty for stdout
    pub access_log_path: String,
}

pub const DEFAULT_MAX_CONNECTIONS: usize = 100;

pub const DEFAULT_TIMEOUT_SECS: u64 = 30;

pub const DEFAULT_MAX_REQUESTS_PER_CONNECTION: usize = 1000;

/// What a configuration holds when nothing was set.
pub open spec fn is_default_config(c: ServerConfig) -> bool {
    &&& c.ip@ == "127.0.0.1"@
    &&& c.port == 8080
    &&& c.max_connections == Some(DEFAULT_MAX_CONNECTIONS)
    &&& c.thread_count is None
    &&& c.read_timeout is None
    &&& c.write_timeout is None
    &&& c.keep_alive_timeout is None
    &&& c.max_requests_per_connection is None
    &&& c.doc_root@ == "./static"@
    &&& c.default_index@ == "index.html"@
    &&& c.error_log
    &&& c.error_log_path@.len() == 0
    &&& c.access_log
    &&& c.access_log_path@.len() == 0
}

impl Default for ServerConfig {
    fn default() -> (r: ServerConfig)
        ensures
            is_default_config(r),
    {
        ServerConfig {
            ip: String::from_str("127.0.0.1"),
            port: 8080,
            max_connections: Some(DEFAULT_MAX_CONNECTIONS),
            thread_count: None,
            read_timeout: None,
            write_timeout: None,
            keep_alive_timeout: None,
            max_requests_per_connection: None,
            doc_root: String::from_str("./static"),
            default_index: String::from_str("index.html"),
            error_log: true,
            error_log_path: String::new(),
            access_log: true,
            access_log_path: String::new(),
        }
    }
}

pub open spec fn or_default<T>(o: Option<T>, d: T) -> T {
    match o {
        Some(v) => v,
        None => d,
    }
}

impl ServerConfig {
    /// `ip:port`.
    pub fn address(&self) -> (r: String)
        ensures
            r@ == self.ip@.push(':') + decimal(self.port as nat),
    {
        let mut r = self.ip.clone();
        push_char(&mut r, ':');
        push_decimal(&mut r, self.port as u64);
        r
    }

    pub fn new() -> (r: ServerConfig)
        ensures
            is_default_config(r),
    {
        ServerConfig::default()
    }

    /// The defaults, with the given address, connection limit and document
    /// root.
    pub fn with_params(ip: &str, port: u16, max_connections: usize, doc_root: &str) -> (r:
        ServerConfig)
        ensures
            r.ip@ == ip@,
            r.port == port,
            r.max_connections == Some(max_connections),
            r.doc_root@ == doc_root@,
            r.thread_count is None,
            r.read_timeout is None,
            r.write_timeout is None,
            r.keep_alive_timeout is None,
            r.max_requests_per_connection is None,
            r.default_index@ == "index.html"@,
            r.error_log,
            r.error_log_path@.len() == 0,
            r.access_log,
            r.access_log_path@.len() == 0,
    {
        let mut config = ServerConfig::default();
        config.ip = String::from_str(ip);
        config.port = port;
        config.max_connections = Some(max_connections);
        config.doc_root = String::from_str(doc_root);
        config
    }

    /// The connection limit in force.
    pub fn connection_limit(&self) -> (r: usize)
        ensures
            r == or_default(self.max_connections, DEFAULT_MAX_CONNECTIONS),
    {
        match self.max_connections {
            Some(m) => m,
            None => DEFAULT_MAX_CONNECTIONS,
        }
    }

    /// Seconds a read may wait.
    pub fn read_timeout_secs(&self) -> (r: u64)
        ensures
            r == or_default(self.read_timeout, DEFAULT_TIMEOUT_SECS),
    {
        match self.read_timeout {
            Some(t) => t,
            None => DEFAULT_TIMEOUT_SECS,
        }
    }

    /// Seconds a write may wait.
    pub fn write_timeout_secs(&self) -> (r: u64)
        ensures
            r == or_default(self.write_timeout, DEFAULT_TIMEOUT_SECS),
    {
        match self.write_timeout {
            Some(t) => t,
            None => DEFAULT_TIMEOUT_SECS,
        }
    }

    /// Seconds an open connection may sit idle.
    pub fn idle_timeout_secs(&self) -> (r: u64)
        ensures
            r == or_default(self.keep_alive_timeout, DEFAULT_TIMEOUT_SECS),
    {
        match self.keep_alive_timeout {
            Some(t) => t,
            None => DEFAULT_TIMEOUT_SECS,
        }
    }

    /// Requests one connection may carry.
    pub fn request_quota(&self) -> (r: usize)
        ensures
            r == or_default(self.max_requests_per_connection, DEFAULT_MAX_REQUESTS_PER_CONNECTION),
    {
        match self.max_requests_per_connection {
            Some(m) => m,
            None => DEFAULT_MAX_REQUESTS_PER_CONNECTION,
        }
    }
}

} // verus!
