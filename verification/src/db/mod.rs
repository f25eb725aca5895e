//! The data layer: rows as the database stores them, the vocabularies of the
//! database's enumerated types, and the conversions to and from the domain.

pub mod error;
pub mod job_runs;
pub mod job_schedule_state;
pub mod job_schedules;
pub mod jobs;
pub mod queues;
pub mod workers;
