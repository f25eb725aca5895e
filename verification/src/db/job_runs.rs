//! Job runs as the database stores them.

use crate::db::jobs::DbJobId;
use crate::db::queues::DbQueueId;
use crate::db::workers::DbWorkerId;
use crate::domain::id::JobRunId;
use crate::domain::job_runs::{JobRunStatus, NewJobRun};
use crate::time::UtcTime;
use vstd::prelude::*;

verus! {

/// Access to the `job_runs` table.
#[derive(Clone)]
pub struct PgJobRunRepository;

/// The status of a job run in the database; the database knows no skipped
/// runs.
#[derive(Debug, Clone, Copy, PartialEq, Eq, Structural)]
pub enum DbJobRunStatus {
    /// The job is queued and waiting capacity
    Queued,
    /// The job is currently being executed
    Running,
    /// The job was stopped with SIGTERM/SIGKILL
    Stopped,
    /// The job exited with a non-zero exit status
    Failed,
    /// The job exited with a zero exit status
    Completed,
}

/// The stored status of a job run status; a skipped run has none.
pub open spec fn db_job_run_status_of(s: JobRunStatus) -> Option<DbJobRunStatus> {
    match s {
        JobRunStatus::Queued => Some(DbJobRunStatus::Queued),
        JobRunStatus::Running => Some(DbJobRunStatus::Running),
        JobRunStatus::Stopped => Some(DbJobRunStatus::Stopped),
        JobRunStatus::Failed => Some(DbJobRunStatus::Failed),
        JobRunStatus::Skipped => None,
        JobRunStatus::Completed => Some(DbJobRunStatus::Completed),
    }
}

/// The text a stored job run status is displayed with.
pub open spec fn db_job_run_status_text(s: DbJobRunStatus) -> Seq<char> {
    match s {
        DbJobRunStatus::Queued => "QUEUED"@,
        DbJobRunStatus::Running => "RUNING"@,
        DbJobRunStatus::Stopped => "STOPPED"@,
        DbJobRunStatus::Failed => "FAILED"@,
        DbJobRunStatus::Completed => "COMPLETED"@,
    }
}

/// The stored job run status that a text names, if any.
pub open spec fn db_job_run_status_from_text(t: Seq<char>) -> Option<DbJobRunStatus> {
    if t == "PENDING"@ {
        Some(DbJobRunStatus::Queued)
    } else if t == "RUNNING"@ {
        Some(DbJobRunStatus::Running)
    } else if t == "STOPPED"@ {
        Some(DbJobRunStatus::Stopped)
    } else if t == "FAILED"@ {
        Some(DbJobRunStatus::Failed)
    } else if t == "COMPLETED"@ {
        Some(DbJobRunStatus::Completed)
    } else {
        None
    }
}

impl DbJobRunStatus {
    /// The status of a new run: `Queued`.
    pub fn default() -> (r: Self)
        ensures
            r == DbJobRunStatus::Queued,
    {
        DbJobRunStatus::Queued
    }

    /// The stored form of a job run status; `None` for a skipped run.
    pub fn from_job_run_status(value: JobRunStatus) -> (r: Option<Self>)
        ensures
            r == db_job_run_status_of(value),
    {
        match value {
            JobRunStatus::Queued => Some(DbJobRunStatus::Queued),
            JobRunStatus::Running => Some(DbJobRunStatus::Running),
            JobRunStatus::Stopped => Some(DbJobRunStatus::Stopped),
            JobRunStatus::Failed => Some(DbJobRunStatus::Failed),
            JobRunStatus::Skipped => None,
            JobRunStatus::Completed => Some(DbJobRunStatus::Completed),
        }
    }

    /// The display text of the status (see `db_job_run_status_text`).
    pub fn to_string(&self) -> (r: String)
        ensures
            r@ == db_job_run_status_text(*self),
    {
        match self {
            DbJobRunStatus::Queued => String::from_str("QUEUED"),
            DbJobRunStatus::Running => String::from_str("RUNING"),
            DbJobRunStatus::Stopped => String::from_str("STOPPED"),
            DbJobRunStatus::Failed => String::from_str("FAILED"),
            DbJobRunStatus::Completed => String::from_str("COMPLETED"),
        }
    }

    /// Reads a status from its text (see `db_job_run_status_from_text`).
    pub fn from_str(s: &str) -> (r: Result<Self, String>)
        ensures
            db_job_run_status_from_text(s@) matches Some(st) ==> r == Ok::<DbJobRunStatus, String>(st),
            db_job_run_status_from_text(s@) is None ==> (r matches Err(e) && e@ == "Job Run Status not understood"@),
    {
        if crate::text::str_eq(s, "PENDING") {
            Ok(DbJobRunStatus::Queued)
        } else if crate::text::str_eq(s, "RUNNING") {
            Ok(DbJobRunStatus::Running)
        } else if crate::text::str_eq(s, "STOPPED") {
            Ok(DbJobRunStatus::Stopped)
        } else if crate::text::str_eq(s, "FAILED") {
            Ok(DbJobRunStatus::Failed)
        } else if crate::text::str_eq(s, "COMPLETED") {
            Ok(DbJobRunStatus::Completed)
        } else {
            Err(String::from_str("Job Run Status not understood"))
        }
    }
}

/// Reading the display text of a stored job run status gives the status
/// back for stopped, failed and completed runs.
pub proof fn lemma_db_job_run_status_text_roundtrip(s: DbJobRunStatus)
    requires
        s != DbJobRunStatus::Queued,
        s != DbJobRunStatus::Running,
    ensures
        db_job_run_status_from_text(db_job_run_status_text(s)) == Some(s),
{
    reveal_strlit("PENDING");
    reveal_strlit("RUNNING");
    reveal_strlit("STOPPED");
    reveal_strlit("FAILED");
    reveal_strlit("COMPLETED");
    assert("STOPPED"@[0] != "PENDING"@[0]);
    assert("STOPPED"@[0] != "RUNNING"@[0]);
    assert("FAILED"@[0] != "PENDING"@[0]);
    assert("FAILED"@[0] != "RUNNING"@[0]);
    assert("FAILED"@[0] != "STOPPED"@[0]);
    assert("COMPLETED"@[0] != "PENDING"@[0]);
    assert("COMPLETED"@[0] != "RUNNING"@[0]);
    assert("COMPLETED"@[0] != "STOPPED"@[0]);
    assert("COMPLETED"@[0] != "FAILED"@[0]);
}

/// The display texts of queued and running runs are not read back as the
/// same status.
pub proof fn lemma_db_job_run_status_text_unread()
    ensures
        db_job_run_status_from_text(db_job_run_status_text(DbJobRunStatus::Queued)) is None,
        db_job_run_status_from_text(db_job_run_status_text(DbJobRunStatus::Running)) is None,
{
    reveal_strlit("QUEUED");
    reveal_strlit("RUNING");
    reveal_strlit("PENDING");
    reveal_strlit("RUNNING");
    reveal_strlit("STOPPED");
    reveal_strlit("FAILED");
    reveal_strlit("COMPLETED");
    assert("QUEUED"@[0] != "PENDING"@[0]);
    assert("QUEUED"@[0] != "RUNNING"@[0]);
    assert("QUEUED"@[0] != "STOPPED"@[0]);
    assert("QUEUED"@[0] != "FAILED"@[0]);
    assert("QUEUED"@[0] != "COMPLETED"@[0]);
    assert("RUNING"@[0] != "PENDING"@[0]);
    assert("RUNING"@.len() != "RUNNING"@.len());
    assert("RUNING"@[0] != "STOPPED"@[0]);
    assert("RUNING"@[0] != "FAILED"@[0]);
    assert("RUNING"@[0] != "COMPLETED"@[0]);
}

/// The database identifier of a job run.
#[derive(Debug, Clone, Copy, PartialEq, Eq, Structural)]
pub struct DbJobRunId(pub u128);

impl From<u128> for DbJobRunId {
    fn from(value: u128) -> (r: Self) {
        DbJobRunId(value)
    }
}

impl vstd::std_specs::convert::FromSpecImpl<u128> for DbJobRunId {
    open spec fn obeys_from_spec() -> bool {
        true
    }

    open spec fn from_spec(v: u128) -> DbJobRunId {
        DbJobRunId(v)
    }
}

impl From<JobRunId> for DbJobRunId {
    fn from(value: JobRunId) -> (r: Self) {
        DbJobRunId(value.inner())
    }
}

impl vstd::std_specs::convert::FromSpecImpl<JobRunId> for DbJobRunId {
    open spec fn obeys_from_spec() -> bool {
        true
    }

    open spec fn from_spec(v: JobRunId) -> DbJobRunId {
        DbJobRunId(v.0)
    }
}

impl From<DbJobRunId> for JobRunId {
    fn from(value: DbJobRunId) -> (r: Self) {
        JobRunId::new(value.0)
    }
}

impl vstd::std_specs::convert::FromSpecImpl<DbJobRunId> for JobRunId {
    open spec fn obeys_from_spec() -> bool {
        true
    }

    open spec fn from_spec(v: DbJobRunId) -> JobRunId {
        JobRunId(v.0)
    }
}

impl<'a> From<&'a JobRunId> for DbJobRunId {
    fn from(value: &'a JobRunId) -> (r: Self) {
        DbJobRunId(value.inner())
    }
}

impl<'a> vstd::std_specs::convert::FromSpecImpl<&'a JobRunId> for DbJobRunId {
    open spec fn obeys_from_spec() -> bool {
        true
    }

    open spec fn from_spec(v: &'a JobRunId) -> DbJobRunId {
        DbJobRunId(v.0)
    }
}

/// A record of a job execution, as the database stores it.
pub struct JobRunRow {
    /// Unique identifier for a job run
    pub job_run_id: DbJobRunId,
    /// The job this job run refers to.
    pub job_id: DbJobId,
    /// The queue of the job.
    pub queue_id: DbQueueId,
    /// Identifier of the worker that concluded the execution.
    pub worker_id: DbWorkerId,
    /// Time when a worker claimed this job run
    pub claimed_at: Option<UtcTime>,
    /// Current status of the container.
    pub status: DbJobRunStatus,
    /// Scheduled execution time
    pub scheduled_time: UtcTime,
    /// Number of times this job has been attempted
    pub attempt_count: i32,
    /// Timestamp representing the start time of this run
    pub started_at: Option<UtcTime>,
    /// Timestamp representing the end time of this run
    pub ended_at: Option<UtcTime>,
    /// Container exit code
    pub exit_code: Option<i32>,
    /// Error message
    pub error: Option<String>,
    /// Job creation timestamp
    pub created_at: UtcTime,
    /// Time this job run was last updated
    pub updated_at: UtcTime,
}

/// The columns written when job runs are inserted: the job of each run and
/// its scheduled time, in order; `None` when there is nothing to insert.
pub fn insert_columns(job_info: &[NewJobRun]) -> (r: Option<(Vec<DbJobId>, Vec<UtcTime>)>)
    ensures
        r is None <==> job_info@.len() == 0,
        r matches Some(c) ==> {
            &&& c.0@.len() == job_info@.len()
            &&& c.1@.len() == job_info@.len()
            &&& forall|i: int| 0 <= i < job_info@.len() ==> {
                &&& (#[trigger] c.0@[i]) == DbJobId(job_info@[i]@.job_id.0)
                &&& c.1@[i] == job_info@[i]@.scheduled_time
            }
        },
{
    if job_info.len() == 0 {
        return None;
    }
    let mut job_ids: Vec<DbJobId> = Vec::new();
    let mut times: Vec<UtcTime> = Vec::new();
    let n = job_info.len();
    let mut i: usize = 0;
    while i < n
        invariant
            n == job_info@.len(),
            i <= n,
            job_ids@.len() == i,
            times@.len() == i,
            forall|k: int| 0 <= k < i ==> {
                &&& (#[trigger] job_ids@[k]) == DbJobId(job_info@[k]@.job_id.0)
                &&& times@[k] == job_info@[k]@.scheduled_time
            },
        decreases n - i,
    {
        job_ids.push(DbJobId(job_info[i].job_id().inner()));
        times.push(job_info[i].scheduled_time());
        i = i + 1;
    }
    Some((job_ids, times))
}

} // verus!
