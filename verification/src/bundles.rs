//! Bundles of repositories that the services use together in a single
//! transaction; a bundle is only a handle that the services are given.

use vstd::prelude::*;

verus! {

/// The repositories of the job service: jobs and queues.
#[derive(Debug, Clone, Copy, PartialEq, Eq, Structural)]
pub struct PgJobBundle;

impl PgJobBundle {
    pub fn new() -> (r: Self)
        ensures
            r == PgJobBundle,
    {
        PgJobBundle
    }
}

impl Default for PgJobBundle {
    fn default() -> (r: Self)
        ensures
            r == PgJobBundle,
    {
        PgJobBundle
    }
}

/// The repositories of the queue service: queues.
#[derive(Debug, Clone, Copy, PartialEq, Eq, Structural)]
pub struct PgQueueBundle;

impl PgQueueBundle {
    pub fn new() -> (r: Self)
        ensures
            r == PgQueueBundle,
    {
        PgQueueBundle
    }
}

impl Default for PgQueueBundle {
    fn default() -> (r: Self)
        ensures
            r == PgQueueBundle,
    {
        PgQueueBundle
    }
}

/// The repositories of the scheduler: jobs, job runs and schedule states.
#[derive(Debug, Clone, Copy, PartialEq, Eq, Structural)]
pub struct PgJobSchedulerBundle;

impl PgJobSchedulerBundle {
    pub fn new() -> (r: Self)
        ensures
            r == PgJobSchedulerBundle,
    {
        PgJobSchedulerBundle
    }
}

impl Default for PgJobSchedulerBundle {
    fn default() -> (r: Self)
        ensures
            r == PgJobSchedulerBundle,
    {
        PgJobSchedulerBundle
    }
}

} // verus!
