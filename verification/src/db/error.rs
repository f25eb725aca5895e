//! Errors of the data layer that its conversions raise.

use vstd::prelude::*;

verus! {

/// A failure of the data layer.
pub enum DbError {
    /// A stored schedule that `croner` refuses.
    Cron(croner::errors::CronError),
    /// An internal failure, described by a message.
    Internal(String),
}

} // verus!
