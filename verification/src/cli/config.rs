//! Configuration of the command line.

use vstd::prelude::*;

verus! {

/// The scheduler's gRPC address when none is configured.
pub const SCHEDULER_GRPC_URL: &'static str = "http://localhost:50051";

/// The gRPC request timeout when none is configured, in milliseconds.
pub const REQUEST_TIMEOUT_MS: u32 = 5000;

/// Where the scheduler is and how long a request may take.
#[derive(Debug, Default)]
pub struct Config {
    /// gRPC address to communicate with the scheduler.
    scheduler_grpc_url: String,
    /// gRPC request timeout
    request_timeout_ms: u32,
}

impl Config {
    /// The configuration read from the configuration sources.
    pub fn new(scheduler_grpc_url: String, request_timeout_ms: u32) -> (r: Self)
        ensures
            r.scheduler_grpc_url_spec() == scheduler_grpc_url@,
            r.request_timeout_ms_spec() == request_timeout_ms,
    {
        Config { scheduler_grpc_url, request_timeout_ms }
    }

    /// The scheduler's address.
    pub closed spec fn scheduler_grpc_url_spec(&self) -> Seq<char> {
        self.scheduler_grpc_url@
    }

    /// The request timeout, in milliseconds.
    pub closed spec fn request_timeout_ms_spec(&self) -> u32 {
        self.request_timeout_ms
    }

    /// Sets the scheduler's address to `url`, or to `SCHEDULER_GRPC_URL`
    /// when none is given.
    pub fn with_scheduler_grpc_url(self, url: Option<String>) -> (r: Self)
        ensures
            r.scheduler_grpc_url_spec() == match url {
                Some(u) => u@,
                None => SCHEDULER_GRPC_URL@,
            },
            r.request_timeout_ms_spec() == self.request_timeout_ms_spec(),
    {
        let mut c = self;
        match url {
            Some(u) => {
                c.scheduler_grpc_url = u;
            },
            None => {
                c.scheduler_grpc_url = String::from_str(SCHEDULER_GRPC_URL);
            },
        }
        c
    }

    /// Sets the request timeout to `timeout`, or to `REQUEST_TIMEOUT_MS`
    /// when none is given.
    pub fn with_request_timeout_ms(self, timeout: Option<u32>) -> (r: Self)
        ensures
            r.request_timeout_ms_spec() == match timeout {
                Some(t) => t,
                None => REQUEST_TIMEOUT_MS,
            },
            r.scheduler_grpc_url_spec() == self.scheduler_grpc_url_spec(),
    {
        let mut c = self;
        match timeout {
            Some(t) => {
                c.request_timeout_ms = t;
            },
            None => {
                c.request_timeout_ms = REQUEST_TIMEOUT_MS;
            },
        }
        c
    }

    pub fn scheduler_grpc_url(&self) -> (r: String)
        ensures
            r@ == self.scheduler_grpc_url_spec(),
    {
        self.scheduler_grpc_url.clone()
    }

    pub fn request_timeout_ms(&self) -> (r: u32)
        ensures
            r == self.request_timeout_ms_spec(),
    {
        self.request_timeout_ms
    }
}

} // verus!
