//! The next run of each job, as the database stores it.

use crate::domain::job_schedule_state::{JobScheduleState, NewJobScheduleState};
use crate::time::UtcTime;
use vstd::prelude::*;

verus! {

/// Access to the `job_schedule_state` table.
#[derive(Clone)]
pub struct PgJobScheduleStateRepository;

/// The next run of a job, as stored.
pub struct DbJobScheduleState {
    pub job_id: u128,
    pub next_run_at: UtcTime,
}

impl DbJobScheduleState {
    pub fn job_id_inner(&self) -> (r: u128)
        ensures
            r == self.job_id,
    {
        self.job_id
    }

    pub fn next_run_at(&self) -> (r: UtcTime)
        ensures
            r == self.next_run_at,
    {
        self.next_run_at
    }

}

impl<'a> From<&'a NewJobScheduleState> for DbJobScheduleState {
    fn from(value: &'a NewJobScheduleState) -> (r: Self) {
        DbJobScheduleState { job_id: value.job_id_inner(), next_run_at: value.next_run_at() }
    }
}

impl<'a> vstd::std_specs::convert::FromSpecImpl<&'a NewJobScheduleState> for DbJobScheduleState {
    open spec fn obeys_from_spec() -> bool {
        true
    }

    open spec fn from_spec(v: &'a NewJobScheduleState) -> DbJobScheduleState {
        DbJobScheduleState { job_id: v.job_id_value(), next_run_at: v.next_run_at_spec() }
    }
}

impl From<NewJobScheduleState> for DbJobScheduleState {
    fn from(value: NewJobScheduleState) -> (r: Self) {
        DbJobScheduleState::from(&value)
    }
}

impl vstd::std_specs::convert::FromSpecImpl<NewJobScheduleState> for DbJobScheduleState {
    open spec fn obeys_from_spec() -> bool {
        true
    }

    open spec fn from_spec(v: NewJobScheduleState) -> DbJobScheduleState {
        DbJobScheduleState { job_id: v.job_id_value(), next_run_at: v.next_run_at_spec() }
    }
}

impl<'a> From<&'a JobScheduleState> for DbJobScheduleState {
    fn from(value: &'a JobScheduleState) -> (r: Self) {
        DbJobScheduleState { job_id: value.job_id_inner(), next_run_at: *value.next_run_at() }
    }
}

impl<'a> vstd::std_specs::convert::FromSpecImpl<&'a JobScheduleState> for DbJobScheduleState {
    open spec fn obeys_from_spec() -> bool {
        true
    }

    open spec fn from_spec(v: &'a JobScheduleState) -> DbJobScheduleState {
        DbJobScheduleState { job_id: v.job_id_value(), next_run_at: v.next_run_at_spec() }
    }
}

impl From<JobScheduleState> for DbJobScheduleState {
    fn from(value: JobScheduleState) -> (r: Self) {
        DbJobScheduleState::from(&value)
    }
}

impl vstd::std_specs::convert::FromSpecImpl<JobScheduleState> for DbJobScheduleState {
    open spec fn obeys_from_spec() -> bool {
        true
    }

    open spec fn from_spec(v: JobScheduleState) -> DbJobScheduleState {
        DbJobScheduleState { job_id: v.job_id_value(), next_run_at: v.next_run_at_spec() }
    }
}

/// The columns written when schedule states are stored: the job of each
/// state and its next run, in order; `None` when there is nothing to store.
pub fn upsert_columns(jobs_schedules: &[DbJobScheduleState]) -> (r: Option<(Vec<u128>, Vec<UtcTime>)>)
    ensures
        r is None <==> jobs_schedules@.len() == 0,
        r matches Some(c) ==> {
            &&& c.0@.len() == jobs_schedules@.len()
            &&& c.1@.len() == jobs_schedules@.len()
            &&& forall|i: int| 0 <= i < jobs_schedules@.len() ==> {
                &&& (#[trigger] c.0@[i]) == jobs_schedules@[i].job_id
                &&& c.1@[i] == jobs_schedules@[i].next_run_at
            }
        },
{
    if jobs_schedules.len() == 0 {
        return None;
    }
    let mut job_ids: Vec<u128> = Vec::new();
    let mut times: Vec<UtcTime> = Vec::new();
    let n = jobs_schedules.len();
    let mut i: usize = 0;
    while i < n
        invariant
            n == jobs_schedules@.len(),
            i <= n,
            job_ids@.len() == i,
            times@.len() == i,
            forall|k: int| 0 <= k < i ==> {
                &&& (#[trigger] job_ids@[k]) == jobs_schedules@[k].job_id
                &&& times@[k] == jobs_schedules@[k].next_run_at
            },
        decreases n - i,
    {
        job_ids.push(jobs_schedules[i].job_id);
        times.push(jobs_schedules[i].next_run_at);
        i = i + 1;
    }
    Some((job_ids, times))
}

} // verus!
