//! Verified core of the repeatrs job scheduler: domain types and their
//! invariants, the parsing and rendering of container options, the status
//! vocabularies shared with the database and the wire, the command-line
//! request resolution and the NATS configuration rules.

pub mod bundles;
pub mod cli;
pub mod cron;
pub mod db;
pub mod domain;
pub mod nats;
pub mod outside;
pub mod proto;
pub mod text;
pub mod time;
