//! The schedule state of each job with the run last scheduled, as stored.

use crate::domain::job_schedule_state::JobScheduleState;
use crate::time::UtcTime;
use vstd::prelude::*;

verus! {

/// Access to the schedule state of jobs.
#[derive(Clone)]
pub struct PgJobSchedulerStateRepository;

/// The schedule state of a job, as stored.
pub struct DbJobScheduleState {
    pub job_id: u128,
    pub next_run_at: UtcTime,
    pub last_scheduled_at: Option<UtcTime>,
}

impl<'a> From<&'a JobScheduleState> for DbJobScheduleState {
    fn from(value: &'a JobScheduleState) -> (r: Self) {
        DbJobScheduleState {
            job_id: value.job_id_inner(),
            next_run_at: *value.next_run_at(),
            last_scheduled_at: value.last_scheduled_at(),
        }
    }
}

impl<'a> vstd::std_specs::convert::FromSpecImpl<&'a JobScheduleState> for DbJobScheduleState {
    open spec fn obeys_from_spec() -> bool {
        true
    }

    open spec fn from_spec(v: &'a JobScheduleState) -> DbJobScheduleState {
        DbJobScheduleState {
            job_id: v.job_id_value(),
            next_run_at: v.next_run_at_spec(),
            last_scheduled_at: v.last_scheduled_at_spec(),
        }
    }
}

impl From<JobScheduleState> for DbJobScheduleState {
    fn from(value: JobScheduleState) -> (r: Self) {
        DbJobScheduleState::from(&value)
    }
}

impl vstd::std_specs::convert::FromSpecImpl<JobScheduleState> for DbJobScheduleState {
    open spec fn obeys_from_spec() -> bool {
        true
    }

    open spec fn from_spec(v: JobScheduleState) -> DbJobScheduleState {
        DbJobScheduleState {
            job_id: v.job_id_value(),
            next_run_at: v.next_run_at_spec(),
            last_scheduled_at: v.last_scheduled_at_spec(),
        }
    }
}

} // verus!
