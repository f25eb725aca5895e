//! When each job runs next.

use crate::domain::id::JobId;
use crate::time::UtcTime;
use vstd::prelude::*;

verus! {

/// The next run of a job, to be stored.
#[derive(Debug)]
pub struct NewJobScheduleState {
    job_id: JobId,
    next_run_at: UtcTime,
}

impl NewJobScheduleState {
    pub fn new(job_id: &JobId, next_run_at: UtcTime) -> (r: Self)
        ensures
            r.job_id_value() == job_id.0,
            r.next_run_at_spec() == next_run_at,
    {
        NewJobScheduleState { job_id: *job_id, next_run_at }
    }

    /// The UUID value of the job.
    pub closed spec fn job_id_value(&self) -> u128 {
        self.job_id.0
    }

    /// When the job runs next.
    pub closed spec fn next_run_at_spec(&self) -> UtcTime {
        self.next_run_at
    }

    pub fn job_id_inner(&self) -> (r: u128)
        ensures
            r == self.job_id_value(),
    {
        self.job_id.inner()
    }

    pub fn next_run_at(&self) -> (r: UtcTime)
        ensures
            r == self.next_run_at_spec(),
    {
        self.next_run_at
    }
}

/// The schedule state of a job: its next run and the run last scheduled.
#[derive(Debug)]
pub struct JobScheduleState {
    job_id: JobId,
    next_run_at: UtcTime,
    last_scheduled_at: Option<UtcTime>,
}

impl JobScheduleState {
    /// A job that runs next at `next_run_at` and has not been scheduled yet.
    pub fn new(job_id: JobId, next_run_at: UtcTime) -> (r: Self)
        ensures
            r.job_id_value() == job_id.0,
            r.next_run_at_spec() == next_run_at,
            r.last_scheduled_at_spec() is None,
    {
        JobScheduleState { job_id, next_run_at, last_scheduled_at: None }
    }

    /// The UUID value of the job.
    pub closed spec fn job_id_value(&self) -> u128 {
        self.job_id.0
    }

    /// When the job runs next.
    pub closed spec fn next_run_at_spec(&self) -> UtcTime {
        self.next_run_at
    }

    /// When the job was last scheduled.
    pub closed spec fn last_scheduled_at_spec(&self) -> Option<UtcTime> {
        self.last_scheduled_at
    }

    pub fn job_id_inner(&self) -> (r: u128)
        ensures
            r == self.job_id_value(),
    {
        self.job_id.inner()
    }

    pub fn next_run_at(&self) -> (r: &UtcTime)
        ensures
            *r == self.next_run_at_spec(),
    {
        &self.next_run_at
    }

    pub fn last_scheduled_at(&self) -> (r: Option<UtcTime>)
        ensures
            r == self.last_scheduled_at_spec(),
    {
        self.last_scheduled_at
    }
}

} // verus!
