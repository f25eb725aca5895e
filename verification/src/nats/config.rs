//! Configuration of the NATS job queues.

use crate::nats::error::NatsError;
use vstd::prelude::*;

verus! {

/// The prefix of the job queue subjects when none is configured.
pub const JOB_QUEUES_PREFIX: &'static str = "job_queues";

/// The NATS server when none is configured.
pub const NATS_URL: &'static str = "127.0.0.1:4222";

/// The largest number of consumers of the stream when none is configured.
pub const MAX_CONSUMERS: i32 = 10;

/// The largest size of the stream when none is configured, in bytes.
pub const MAX_BYTES: i64 = 1024 * 1024;

/// The largest number of messages in the stream when none is configured.
pub const MAX_MESSAGES: i64 = 1000000;

/// The environment when none is configured.
pub const ENVIRONMENT: &'static str = "DEV";

/// The window in which a repeated message id is a duplicate, in seconds.
pub const DUPLICATE_WINDOW_SECS: u64 = 120;

/// Whether the `async-nats` crate accepts `address` as a server address
/// (`ServerAddr::from_str` returns `Ok`).
pub uninterp spec fn nats_address_accepted(address: Seq<char>) -> bool;

/// Calls `async_nats::ServerAddr::from_str(address)`.
#[verifier::external_body]
fn parse_server_addr(address: &str) -> (r: Result<(), std::io::Error>)
    ensures
        r is Ok <==> nats_address_accepted(address@),
{
    match <async_nats::ServerAddr as std::str::FromStr>::from_str(address) {
        Ok(_) => Ok(()),
        Err(e) => Err(e),
    }
}

/// A NATS configuration, as a value.
pub struct ConfigView {
    pub address: Seq<char>,
    pub job_queues_prefix: Seq<char>,
    pub max_consumers: i32,
    pub max_bytes: i64,
    pub max_messages: i64,
    pub environment: Seq<char>,
    pub duplicate_window_seconds: u64,
}

/// The default configuration.
pub open spec fn default_config_view() -> ConfigView {
    ConfigView {
        address: NATS_URL@,
        job_queues_prefix: JOB_QUEUES_PREFIX@,
        max_consumers: MAX_CONSUMERS,
        max_bytes: MAX_BYTES,
        max_messages: MAX_MESSAGES,
        environment: ENVIRONMENT@,
        duplicate_window_seconds: DUPLICATE_WINDOW_SECS,
    }
}

/// The message of the first limit that a configuration with an accepted
/// address breaks: an empty prefix, or a limit that is not positive.
pub open spec fn config_problem(c: ConfigView) -> Option<Seq<char>> {
    if c.job_queues_prefix.len() == 0 {
        Some("Prefix cannot be empty"@)
    } else if c.max_consumers <= 0 {
        Some("Configuration parameter 'max_consumers' must be greater than zero."@)
    } else if c.max_bytes <= 0 {
        Some("Configuration parameter 'max_bytes' must be greater than zero."@)
    } else if c.max_messages <= 0 {
        Some("Configuration parameter 'max_messages' must be greater than zero."@)
    } else {
        None
    }
}

/// Whether a configuration is valid: its address is accepted and it
/// breaks no limit.
pub open spec fn config_valid(c: ConfigView) -> bool {
    nats_address_accepted(c.address) && config_problem(c) is None
}

/// Whether `r` is what validating the configuration `c` gives.
pub open spec fn validation_outcome(c: ConfigView, r: Result<(), NatsError>) -> bool {
    if !nats_address_accepted(c.address) {
        r matches Err(NatsError::InvalidAddress(_))
    } else {
        match config_problem(c) {
            Some(m) => r matches Err(NatsError::Internal(e)) && e@ == m,
            None => r is Ok,
        }
    }
}

/// How the job queues are configured on the NATS server.
#[derive(Debug)]
pub struct Config {
    address: String,
    job_queues_prefix: String,
    max_consumers: i32,
    max_bytes: i64,
    max_messages: i64,
    environment: String,
    duplicate_window_seconds: u64,
}

impl View for Config {
    type V = ConfigView;

    closed spec fn view(&self) -> ConfigView {
        ConfigView {
            address: self.address@,
            job_queues_prefix: self.job_queues_prefix@,
            max_consumers: self.max_consumers,
            max_bytes: self.max_bytes,
            max_messages: self.max_messages,
            environment: self.environment@,
            duplicate_window_seconds: self.duplicate_window_seconds,
        }
    }
}

impl Default for Config {
    fn default() -> (c: Self)
        ensures
            c@ == default_config_view(),
    {
        Config {
            address: String::from_str(NATS_URL),
            job_queues_prefix: String::from_str(JOB_QUEUES_PREFIX),
            max_consumers: MAX_CONSUMERS,
            max_bytes: MAX_BYTES,
            max_messages: MAX_MESSAGES,
            environment: String::from_str(ENVIRONMENT),
            duplicate_window_seconds: DUPLICATE_WINDOW_SECS,
        }
    }
}

impl Config {
    /// A configuration with these values, as read from the configuration
    /// sources.
    pub fn new(
        address: String,
        job_queues_prefix: String,
        max_consumers: i32,
        max_bytes: i64,
        max_messages: i64,
        environment: String,
        duplicate_window_seconds: u64,
    ) -> (c: Self)
        ensures
            c@ == (ConfigView {
                address: address@,
                job_queues_prefix: job_queues_prefix@,
                max_consumers,
                max_bytes,
                max_messages,
                environment: environment@,
                duplicate_window_seconds,
            }),
    {
        Config {
            address,
            job_queues_prefix,
            max_consumers,
            max_bytes,
            max_messages,
            environment,
            duplicate_window_seconds,
        }
    }

    /// Accepts a configuration read from the configuration sources when it
    /// is valid (see `validation_outcome`).
    pub fn load(raw: Config) -> (r: Result<Config, NatsError>)
        ensures
            r is Ok <==> config_valid(raw@),
            r matches Ok(c) ==> c@ == raw@,
            r matches Err(e) ==> validation_outcome(raw@, Err(e)),
    {
        match raw.validated() {
            Ok(()) => Ok(raw),
            Err(e) => Err(e),
        }
    }

    pub fn job_queues_prefix(&self) -> (r: &str)
        ensures
            r@ == self@.job_queues_prefix,
    {
        self.job_queues_prefix.as_str()
    }

    pub fn address(&self) -> (r: &str)
        ensures
            r@ == self@.address,
    {
        self.address.as_str()
    }

    pub fn max_consumers(&self) -> (r: i32)
        ensures
            r == self@.max_consumers,
    {
        self.max_consumers
    }

    pub fn max_messages(&self) -> (r: i64)
        ensures
            r == self@.max_messages,
    {
        self.max_messages
    }

    pub fn max_bytes(&self) -> (r: i64)
        ensures
            r == self@.max_bytes,
    {
        self.max_bytes
    }

    pub fn environment(&self) -> (r: &str)
        ensures
            r@ == self@.environment,
    {
        self.environment.as_str()
    }

    pub fn duplicate_window_seconds(&self) -> (r: u64)
        ensures
            r == self@.duplicate_window_seconds,
    {
        self.duplicate_window_seconds
    }

    /// Checks the address, then the limits, of the configuration.
    fn validated(&self) -> (r: Result<(), NatsError>)
        ensures
            validation_outcome(self@, r),
    {
        match parse_server_addr(self.address.as_str()) {
            Ok(()) => {},
            Err(e) => {
                return Err(NatsError::InvalidAddress(e));
            },
        }
        if self.job_queues_prefix.as_str().is_empty() {
            return Err(NatsError::Internal(String::from_str("Prefix cannot be empty")));
        }
        if self.max_consumers <= 0 {
            return Err(
                NatsError::Internal(
                    String::from_str("Configuration parameter 'max_consumers' must be greater than zero."),
                ),
            );
        }
        if self.max_bytes <= 0 {
            return Err(
                NatsError::Internal(
                    String::from_str("Configuration parameter 'max_bytes' must be greater than zero."),
                ),
            );
        }
        if self.max_messages <= 0 {
            return Err(
                NatsError::Internal(
                    String::from_str("Configuration parameter 'max_messages' must be greater than zero."),
                ),
            );
        }
        Ok(())
    }
}

} // verus!
