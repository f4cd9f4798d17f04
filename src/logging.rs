use vstd::prelude::*;

use crate::config::ServerConfig;
use crate::text::{append_str, decimal, push_decimal};

verus! {

/// One access-log line in the common log format.
pub open spec fn access_line_text(
    timestamp: Seq<char>,
    client: Seq<char>,
    method: Seq<char>,
    path: Seq<char>,
    status: u16,
    size: usize,
) -> Seq<char> {
    client + " - - ["@ + timestamp + "] \""@ + method + " "@ + path + " HTTP/1.1\" "@ + decimal(
        status as nat,
    ) + " "@ + decimal(size as nat)
}

/// Formats one access-log line.
pub fn access_line(
    timestamp: &str,
    client: &str,
    method: &str,
    path: &str,
    status: u16,
    size: usize,
) -> (r: String)
    ensures
        r@ == access_line_text(timestamp@, client@, method@, path@, status, size),
{
    let mut r = String::from_str(client);
    append_str(&mut r, " - - [");
    append_str(&mut r, timestamp);
    append_str(&mut r, "] \"");
    append_str(&mut r, method);
    append_str(&mut r, " ");
    append_str(&mut r, path);
    append_str(&mut r, " HTTP/1.1\" ");
    push_decimal(&mut r, status as u64);
    append_str(&mut r, " ");
    push_decimal(&mut r, size as u64);
    r
}

/// Records one line per completed request, to a file or to standard output.
pub struct AccessLogger {
    log_path: Option<String>,
    access_log: bool,
}

impl AccessLogger {
    pub closed spec fn enabled(&self) -> bool {
        self.access_log
    }

    pub closed spec fn path(&self) -> Option<Seq<char>> {
        match self.log_path {
            Some(p) => Some(p@),
            None => None,
        }
    }

    pub fn new(access_log: bool, log_path: Option<String>) -> (r: AccessLogger)
        ensures
            r.enabled() == access_log,
            r.path() == (match log_path {
                Some(p) => Some(p@),
                None => None::<Seq<char>>,
            }),
    {
        AccessLogger { access_log, log_path }
    }

    /// The logger a configuration asks for; an empty path means standard
    /// output.
    pub fn for_config(config: &ServerConfig) -> (r: AccessLogger)
        ensures
            r.enabled() == config.access_log,
            r.path() == (if config.access_log_path@.len() == 0 {
                None::<Seq<char>>
            } else {
                Some(config.access_log_path@)
            }),
    {
        let path = if config.access_log_path.as_str().is_empty() {
            None
        } else {
            Some(config.access_log_path.clone())
        };
        AccessLogger::new(config.access_log, path)
    }

    /// The file the lines go to; none for standard output.
    pub fn log_path(&self) -> (r: Option<&String>)
        ensures
            match r {
                Some(p) => self.path() == Some(p@),
                None => self.path() is None,
            },
    {
        match &self.log_path {
            Some(p) => Some(p),
            None => None,
        }
    }

    /// The line to record for a completed request, stamped with
    /// `timestamp`; none when access logging is off.
    pub fn entry(
        &self,
        timestamp: &str,
        client: &str,
        method: &str,
        path: &str,
        status: u16,
        size: usize,
    ) -> (r: Option<String>)
        ensures
            !self.enabled() ==> r is None,
            self.enabled() ==> (r matches Some(line) && line@ == access_line_text(
                timestamp@,
                client@,
                method@,
                path@,
                status,
                size,
            )),
    {
        if !self.access_log {
            return None;
        }
        Some(access_line(timestamp, client, method, path, status, size))
    }
}

} // verus!
