//! The command line: its configuration, and the requests it builds from
//! its arguments and from job definition files.

pub mod config;
pub mod error;
pub mod job;
pub mod queue;
