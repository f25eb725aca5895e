//! Domain types: entities that enforce the rules of the scheduler
//! independently of the database and of the wire format.

pub mod error;
pub mod id;
pub mod job;
pub mod job_queue;
pub mod job_runs;
pub mod job_schedule_state;
pub mod queue;
pub mod options;
pub mod sanitized;
