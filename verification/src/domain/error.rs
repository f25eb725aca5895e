//! Errors raised when input breaks a rule of the domain.

use vstd::prelude::*;

verus! {

/// Errors of the service layer.
pub enum DomainError {
    /// An internal failure, described by a message.
    Internal(String),
    /// The record was not found.
    NotFound,
    /// An unexpected database failure.
    Database,
}

/// Input that does not meet a rule of the domain.
pub enum ValidationError {
    /// The text is not a UUID.
    UuidValidation(uuid::Error),
    /// The image name is blank, or names neither a repository path nor a tag.
    InvalidImageName(String),
    /// The container options are malformed.
    InvalidContainerOption(ContainerOptionsError),
    /// The run command is malformed.
    InvalidRunCommand(String),
    /// The command arguments are malformed.
    InvalidRunArguments(String),
    /// The text holds a character other than a letter, a digit, a space or `_`.
    InvalidCharacters(String),
    /// The cron expression was refused.
    InvalidCron(croner::errors::CronError),
}

/// Ways in which a string of `--key=value` options can be malformed.
pub enum ContainerOptionsError {
    /// An argument that cannot be split at `=`.
    MalformedArgument(String),
    /// `--key=` with nothing after the `=`; holds the key.
    MissingValue(String),
    /// A word that is neither an option nor the value of one.
    UnexpectedPositional(String),
}

} // verus!
