//! Errors that the command line reports.

use vstd::prelude::*;

verus! {

/// A failure of the command line.
#[derive(Debug)]
pub enum CliError {
    /// A usage error, described by a message.
    Cli(&'static str),
    /// Any other failure, described by a message.
    Unknown(String),
}

} // verus!
