//! Types of outside crates that values of this crate carry without looking
//! inside them.

use vstd::prelude::*;

verus! {

/// An error of the `uuid` crate, carried inside `ValidationError`.
#[verifier::external_type_specification]
#[verifier::external_body]
pub struct ExUuidError(uuid::Error);

/// A parsed cron schedule of the `croner` crate.
#[verifier::external_type_specification]
#[verifier::external_body]
pub struct ExCron(croner::Cron);

/// An error of the `croner` crate.
#[verifier::external_type_specification]
#[verifier::external_body]
pub struct ExCronError(croner::errors::CronError);

/// An I/O error of std, as returned by the NATS address parser.
#[verifier::external_type_specification]
#[verifier::external_body]
pub struct ExIoError(std::io::Error);

/// A file system path of std.
#[verifier::external_type_specification]
#[verifier::external_body]
pub struct ExPathBuf(std::path::PathBuf);

} // verus!

verus! {

/// A connection to a NATS server.
#[verifier::external_type_specification]
#[verifier::external_body]
pub struct ExNatsClient(async_nats::Client);

/// A JetStream context of a NATS connection.
#[verifier::external_type_specification]
#[verifier::external_body]
pub struct ExJetstreamContext(async_nats::jetstream::Context);

} // verus!
