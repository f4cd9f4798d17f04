//! The core of a small HTTP/1.1 server: a wire codec for requests and
//! responses, a per-connection keep-alive state machine, an admission
//! ledger, and the static-file and logging decisions around them. Sockets,
//! threads, files and clocks stay with the caller, which reports events and
//! carries out the actions it is handed.
use vstd::prelude::*;

pub mod config;
pub mod connection;
pub mod connection_pool;
pub mod error;
pub mod headers;
pub mod http;
pub mod laws;
pub mod logging;
pub mod request;
pub mod response;
pub mod server;
pub mod static_handler;
pub mod text;

pub use config::ServerConfig;
pub use connection::{Action, ConnectionStats, HttpConnection, Phase};
pub use connection_pool::ConnectionPool;
pub use error::{IoKind, ServerError, error_to_response};
pub use headers::HeaderMap;
pub use http::{Method, StatusCode, Version};
pub use logging::AccessLogger;
pub use request::Request;
pub use response::Response;
pub use static_handler::StaticFileHandler;

verus! {

} // verus!
