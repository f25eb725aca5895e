//! Errors of the NATS side: those its configuration rules raise, and the
//! failures of its I/O, each with the outside error's message.

use vstd::prelude::*;

verus! {

/// A failure of the NATS side.
#[derive(Debug)]
pub enum NatsError {
    /// An internal failure, described by a message.
    Internal(String),
    /// The server address is not one that NATS accepts.
    InvalidAddress(std::io::Error),
    /// Connecting to NATS failed.
    NatsConnection(String),
    /// Creating the job queue stream failed.
    NatsCreateStream(String),
    /// Publishing a message failed.
    NatsPublish(String),
    /// Retrieving the subjects failed.
    NatsSubjects(String),
    /// Serializing a message failed.
    Serialization(String),
    /// Reading the configuration failed.
    Config(String),
}

} // verus!
