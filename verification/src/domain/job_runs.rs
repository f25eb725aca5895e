//! Job runs: one execution of a job, from queued to finished.

use crate::domain::id::{JobId, JobRunId, QueueId, WorkerId};
use crate::time::UtcTime;
use vstd::prelude::*;

verus! {

/// Describes the status of a job run.
#[derive(Debug, Clone, Copy, PartialEq, Eq, Structural)]
pub enum JobRunStatus {
    /// The job is queued and waiting capacity
    Queued,
    /// The job is currently being executed
    Running,
    /// The job was stopped with SIGTERM/SIGKILL
    Stopped,
    /// The job exited with a non-zero exit status
    Failed,
    /// The job run is not executed
    Skipped,
    /// The job exited with a zero exit status
    Completed,
}

/// The text under which a job run status is stored and read back.
pub open spec fn job_run_status_text(s: JobRunStatus) -> Seq<char> {
    match s {
        JobRunStatus::Queued => "QUEUED"@,
        JobRunStatus::Running => "RUNNING"@,
        JobRunStatus::Stopped => "STOPPED"@,
        JobRunStatus::Failed => "FAILED"@,
        JobRunStatus::Skipped => "SKIPPED"@,
        JobRunStatus::Completed => "COMPLETED"@,
    }
}

/// The text that a job run status is displayed with: as it is stored,
/// except that a queued run is displayed as `ACTIVE`.
pub open spec fn job_run_status_display(s: JobRunStatus) -> Seq<char> {
    match s {
        JobRunStatus::Queued => "ACTIVE"@,
        _ => job_run_status_text(s),
    }
}

/// The job run status that a text names, if any.
pub open spec fn job_run_status_from_text(t: Seq<char>) -> Option<JobRunStatus> {
    if t == "QUEUED"@ {
        Some(JobRunStatus::Queued)
    } else if t == "RUNNING"@ {
        Some(JobRunStatus::Running)
    } else if t == "STOPPED"@ {
        Some(JobRunStatus::Stopped)
    } else if t == "FAILED"@ {
        Some(JobRunStatus::Failed)
    } else if t == "SKIPPED"@ {
        Some(JobRunStatus::Skipped)
    } else if t == "COMPLETED"@ {
        Some(JobRunStatus::Completed)
    } else {
        None
    }
}

impl JobRunStatus {
    /// The status of a new job run: `Queued`.
    pub fn default() -> (r: Self)
        ensures
            r == JobRunStatus::Queued,
    {
        JobRunStatus::Queued
    }

    /// The display text of the status (see `job_run_status_display`).
    pub fn to_string(&self) -> (r: String)
        ensures
            r@ == job_run_status_display(*self),
    {
        match self {
            JobRunStatus::Queued => String::from_str("ACTIVE"),
            JobRunStatus::Running => String::from_str("RUNNING"),
            JobRunStatus::Stopped => String::from_str("STOPPED"),
            JobRunStatus::Failed => String::from_str("FAILED"),
            JobRunStatus::Skipped => String::from_str("SKIPPED"),
            JobRunStatus::Completed => String::from_str("COMPLETED"),
        }
    }

    /// The stored text of the status (see `job_run_status_text`).
    pub fn into_string(self) -> (r: String)
        ensures
            r@ == job_run_status_text(self),
    {
        match self {
            JobRunStatus::Queued => String::from_str("QUEUED"),
            JobRunStatus::Running => String::from_str("RUNNING"),
            JobRunStatus::Stopped => String::from_str("STOPPED"),
            JobRunStatus::Failed => String::from_str("FAILED"),
            JobRunStatus::Skipped => String::from_str("SKIPPED"),
            JobRunStatus::Completed => String::from_str("COMPLETED"),
        }
    }

    /// Reads a status from its stored text.
    pub fn from_str(s: &str) -> (r: Result<Self, String>)
        ensures
            job_run_status_from_text(s@) matches Some(st) ==> r == Ok::<JobRunStatus, String>(st),
            job_run_status_from_text(s@) is None ==> (r matches Err(e) && e@ == "Job status not understood."@),
    {
        if crate::text::str_eq(s, "QUEUED") {
            Ok(JobRunStatus::Queued)
        } else if crate::text::str_eq(s, "RUNNING") {
            Ok(JobRunStatus::Running)
        } else if crate::text::str_eq(s, "STOPPED") {
            Ok(JobRunStatus::Stopped)
        } else if crate::text::str_eq(s, "FAILED") {
            Ok(JobRunStatus::Failed)
        } else if crate::text::str_eq(s, "SKIPPED") {
            Ok(JobRunStatus::Skipped)
        } else if crate::text::str_eq(s, "COMPLETED") {
            Ok(JobRunStatus::Completed)
        } else {
            Err(String::from_str("Job status not understood."))
        }
    }
}

proof fn lemma_job_run_status_texts_distinct()
    ensures
        "QUEUED"@ != "RUNNING"@,
        "QUEUED"@ != "STOPPED"@,
        "QUEUED"@ != "FAILED"@,
        "QUEUED"@ != "SKIPPED"@,
        "QUEUED"@ != "COMPLETED"@,
        "RUNNING"@ != "STOPPED"@,
        "RUNNING"@ != "FAILED"@,
        "RUNNING"@ != "SKIPPED"@,
        "RUNNING"@ != "COMPLETED"@,
        "STOPPED"@ != "FAILED"@,
        "STOPPED"@ != "SKIPPED"@,
        "STOPPED"@ != "COMPLETED"@,
        "FAILED"@ != "SKIPPED"@,
        "FAILED"@ != "COMPLETED"@,
        "SKIPPED"@ != "COMPLETED"@,
        "ACTIVE"@ != "QUEUED"@,
        "ACTIVE"@ != "RUNNING"@,
        "ACTIVE"@ != "STOPPED"@,
        "ACTIVE"@ != "FAILED"@,
        "ACTIVE"@ != "SKIPPED"@,
        "ACTIVE"@ != "COMPLETED"@,
{
    reveal_strlit("QUEUED");
    reveal_strlit("RUNNING");
    reveal_strlit("STOPPED");
    reveal_strlit("FAILED");
    reveal_strlit("SKIPPED");
    reveal_strlit("COMPLETED");
    reveal_strlit("ACTIVE");
    assert("QUEUED"@[0] != "RUNNING"@[0]);
    assert("QUEUED"@[0] != "STOPPED"@[0]);
    assert("QUEUED"@[0] != "FAILED"@[0]);
    assert("QUEUED"@[0] != "SKIPPED"@[0]);
    assert("QUEUED"@[0] != "COMPLETED"@[0]);
    assert("RUNNING"@[0] != "STOPPED"@[0]);
    assert("RUNNING"@[0] != "FAILED"@[0]);
    assert("RUNNING"@[0] != "SKIPPED"@[0]);
    assert("RUNNING"@[0] != "COMPLETED"@[0]);
    assert("STOPPED"@[0] != "FAILED"@[0]);
    assert("STOPPED"@[1] != "SKIPPED"@[1]);
    assert("STOPPED"@[0] != "COMPLETED"@[0]);
    assert("FAILED"@[0] != "SKIPPED"@[0]);
    assert("FAILED"@[0] != "COMPLETED"@[0]);
    assert("SKIPPED"@[0] != "COMPLETED"@[0]);
    assert("ACTIVE"@[0] != "QUEUED"@[0]);
    assert("ACTIVE"@[0] != "RUNNING"@[0]);
    assert("ACTIVE"@[0] != "STOPPED"@[0]);
    assert("ACTIVE"@[0] != "FAILED"@[0]);
    assert("ACTIVE"@[0] != "SKIPPED"@[0]);
    assert("ACTIVE"@[0] != "COMPLETED"@[0]);
}

/// Reading the stored text of a job run status gives the status back.
pub proof fn lemma_job_run_status_text_roundtrip(s: JobRunStatus)
    ensures
        job_run_status_from_text(job_run_status_text(s)) == Some(s),
{
    lemma_job_run_status_texts_distinct();
}

/// Reading the display text of a job run status gives the status back,
/// for every status but `Queued`, which is displayed as `ACTIVE`.
pub proof fn lemma_job_run_status_display_roundtrip(s: JobRunStatus)
    requires
        s != JobRunStatus::Queued,
    ensures
        job_run_status_from_text(job_run_status_display(s)) == Some(s),
{
    lemma_job_run_status_texts_distinct();
}

/// The display text of a queued run is not read back as any status.
pub proof fn lemma_queued_display_unread()
    ensures
        job_run_status_from_text(job_run_status_display(JobRunStatus::Queued)) is None,
{
    lemma_job_run_status_texts_distinct();
}

/// How a container run ended, as told by its exit code.
#[derive(Debug, Clone, Copy, PartialEq, Eq, Structural)]
pub enum ExitStatus {
    PurposelyStopped,
    ApplicationError,
    ContainerFailedToRun,
    CommandInvokeError,
    FileNotFound,
    InvalidExitArgument,
    AbnormalTermination,
    ImmediateTermination,
    SegmentationFault,
    GracefulTermination,
    OutOfRange,
    Unknown(i32),
}

/// The exit status that an exit code tells.
pub open spec fn exit_status_of(code: i32) -> ExitStatus {
    if code == 0 {
        ExitStatus::PurposelyStopped
    } else if code == 1 {
        ExitStatus::ApplicationError
    } else if code == 125 {
        ExitStatus::ContainerFailedToRun
    } else if code == 126 {
        ExitStatus::CommandInvokeError
    } else if code == 127 {
        ExitStatus::FileNotFound
    } else if code == 128 {
        ExitStatus::InvalidExitArgument
    } else if code == 134 {
        ExitStatus::AbnormalTermination
    } else if code == 137 {
        ExitStatus::ImmediateTermination
    } else if code == 139 {
        ExitStatus::SegmentationFault
    } else if code == 143 {
        ExitStatus::GracefulTermination
    } else if code == 255 {
        ExitStatus::OutOfRange
    } else {
        ExitStatus::Unknown(code)
    }
}

/// The exit code of an exit status.
pub open spec fn exit_code_of(status: ExitStatus) -> i32 {
    match status {
        ExitStatus::PurposelyStopped => 0,
        ExitStatus::ApplicationError => 1,
        ExitStatus::ContainerFailedToRun => 125,
        ExitStatus::CommandInvokeError => 126,
        ExitStatus::FileNotFound => 127,
        ExitStatus::InvalidExitArgument => 128,
        ExitStatus::AbnormalTermination => 134,
        ExitStatus::ImmediateTermination => 137,
        ExitStatus::SegmentationFault => 139,
        ExitStatus::GracefulTermination => 143,
        ExitStatus::OutOfRange => 255,
        ExitStatus::Unknown(code) => code,
    }
}

impl From<i32> for ExitStatus {
    fn from(code: i32) -> (r: Self) {
        match code {
            0 => Self::PurposelyStopped,
            1 => Self::ApplicationError,
            125 => Self::ContainerFailedToRun,
            126 => Self::CommandInvokeError,
            127 => Self::FileNotFound,
            128 => Self::InvalidExitArgument,
            134 => Self::AbnormalTermination,
            137 => Self::ImmediateTermination,
            139 => Self::SegmentationFault,
            143 => Self::GracefulTermination,
            255 => Self::OutOfRange,
            other => Self::Unknown(other),
        }
    }
}

impl vstd::std_specs::convert::FromSpecImpl<i32> for ExitStatus {
    open spec fn obeys_from_spec() -> bool {
        true
    }

    open spec fn from_spec(v: i32) -> ExitStatus {
        exit_status_of(v)
    }
}

impl From<ExitStatus> for i32 {
    fn from(status: ExitStatus) -> (r: i32) {
        match status {
            ExitStatus::PurposelyStopped => 0,
            ExitStatus::ApplicationError => 1,
            ExitStatus::ContainerFailedToRun => 125,
            ExitStatus::CommandInvokeError => 126,
            ExitStatus::FileNotFound => 127,
            ExitStatus::InvalidExitArgument => 128,
            ExitStatus::AbnormalTermination => 134,
            ExitStatus::ImmediateTermination => 137,
            ExitStatus::SegmentationFault => 139,
            ExitStatus::GracefulTermination => 143,
            ExitStatus::OutOfRange => 255,
            ExitStatus::Unknown(code) => code,
        }
    }
}

impl vstd::std_specs::convert::FromSpecImpl<ExitStatus> for i32 {
    open spec fn obeys_from_spec() -> bool {
        true
    }

    open spec fn from_spec(v: ExitStatus) -> i32 {
        exit_code_of(v)
    }
}

/// The exit codes that name a status, as the container runtime and the shell
/// use them: 0 stopped on purpose, 1 an application error, 125 the container
/// failed to run, 126 the command could not be invoked, 127 the command was
/// not found, 128 an invalid exit argument, 134 abort (SIGABRT), 137 kill
/// (SIGKILL), 139 segmentation fault (SIGSEGV), 143 terminate (SIGTERM), 255
/// out of range; every other code is `Unknown` with the code kept. Both
/// directions agree with this table.
pub proof fn lemma_exit_code_table(code: i32)
    ensures
        exit_status_of(0) == ExitStatus::PurposelyStopped && exit_code_of(ExitStatus::PurposelyStopped) == 0,
        exit_status_of(1) == ExitStatus::ApplicationError && exit_code_of(ExitStatus::ApplicationError) == 1,
        exit_status_of(125) == ExitStatus::ContainerFailedToRun && exit_code_of(ExitStatus::ContainerFailedToRun)
            == 125,
        exit_status_of(126) == ExitStatus::CommandInvokeError && exit_code_of(ExitStatus::CommandInvokeError)
            == 126,
        exit_status_of(127) == ExitStatus::FileNotFound && exit_code_of(ExitStatus::FileNotFound) == 127,
        exit_status_of(128) == ExitStatus::InvalidExitArgument && exit_code_of(ExitStatus::InvalidExitArgument)
            == 128,
        exit_status_of(134) == ExitStatus::AbnormalTermination && exit_code_of(ExitStatus::AbnormalTermination)
            == 134,
        exit_status_of(137) == ExitStatus::ImmediateTermination && exit_code_of(
            ExitStatus::ImmediateTermination,
        ) == 137,
        exit_status_of(139) == ExitStatus::SegmentationFault && exit_code_of(ExitStatus::SegmentationFault)
            == 139,
        exit_status_of(143) == ExitStatus::GracefulTermination && exit_code_of(ExitStatus::GracefulTermination)
            == 143,
        exit_status_of(255) == ExitStatus::OutOfRange && exit_code_of(ExitStatus::OutOfRange) == 255,
        code != 0 && code != 1 && code != 125 && code != 126 && code != 127 && code != 128 && code != 134
            && code != 137 && code != 139 && code != 143 && code != 255 ==> exit_status_of(code)
            == ExitStatus::Unknown(code),
{
}

/// An exit code survives the trip through its exit status.
pub proof fn lemma_exit_code_roundtrip(code: i32)
    ensures
        exit_code_of(exit_status_of(code)) == code,
{
}

/// An exit status survives the trip through its code, unless it is an
/// `Unknown` that holds a code with a status of its own.
pub proof fn lemma_exit_status_roundtrip(status: ExitStatus)
    requires
        status matches ExitStatus::Unknown(c) ==> exit_status_of(c) is Unknown,
    ensures
        exit_status_of(exit_code_of(status)) == status,
{
}

/// The information needed to insert a new job run, as a value.
pub struct NewJobRunView {
    pub job_id: JobId,
    pub queue_id: QueueId,
    pub scheduled_time: UtcTime,
}

/// Represents the information necessary to insert a new job run in the database
#[derive(Debug)]
pub struct NewJobRun {
    /// The unique identifier of the job executed in this job run
    job_id: JobId,
    /// The unique identifier of the queue this job belongs to
    queue_id: QueueId,
    /// Scheduled execution time
    scheduled_time: UtcTime,
}

impl View for NewJobRun {
    type V = NewJobRunView;

    closed spec fn view(&self) -> NewJobRunView {
        NewJobRunView { job_id: self.job_id, queue_id: self.queue_id, scheduled_time: self.scheduled_time }
    }
}

impl NewJobRun {
    pub fn new(job_id: &JobId, queue_id: &QueueId, scheduled_time: &UtcTime) -> (r: Self)
        ensures
            r@ == (NewJobRunView { job_id: *job_id, queue_id: *queue_id, scheduled_time: *scheduled_time }),
    {
        NewJobRun { job_id: *job_id, queue_id: *queue_id, scheduled_time: *scheduled_time }
    }

    pub fn job_id(&self) -> (r: &JobId)
        ensures
            *r == self@.job_id,
    {
        &self.job_id
    }

    pub fn queue_id(&self) -> (r: &QueueId)
        ensures
            *r == self@.queue_id,
    {
        &self.queue_id
    }

    pub fn scheduled_time(&self) -> (r: UtcTime)
        ensures
            r == self@.scheduled_time,
    {
        self.scheduled_time
    }
}


/// A persisted job run, as a value.
pub struct JobRunView {
    pub job_run_id: JobRunId,
    pub job_id: JobId,
    pub queue_id: QueueId,
    pub worker_id: Option<WorkerId>,
    pub claimed_at: Option<UtcTime>,
    pub status: JobRunStatus,
    pub scheduled_time: UtcTime,
    pub attempt_count: i32,
    pub started_at: Option<UtcTime>,
    pub ended_at: Option<UtcTime>,
    pub exit_code: Option<ExitStatus>,
    pub error: Option<Seq<char>>,
    pub created_at: UtcTime,
    pub updated_at: UtcTime,
}

/// Represents a job run that has been persisted in the database.
pub struct JobRun {
    /// Unique ID of the job run, primary key
    job_run_id: JobRunId,
    /// The unique identifier of the job executed in this job run
    job_id: JobId,
    /// The unique identifier of the queue this job belongs to
    queue_id: QueueId,
    /// The unique identifier of the worker that claimed this job
    worker_id: Option<WorkerId>,
    /// Time when a worker claimed this job run
    claimed_at: Option<UtcTime>,
    /// Current status of the job
    status: JobRunStatus,
    /// Scheduled execution time
    scheduled_time: UtcTime,
    /// Number of times this job has been attempted
    attempt_count: i32,
    /// Job start time
    started_at: Option<UtcTime>,
    /// Job end time
    ended_at: Option<UtcTime>,
    /// How the container exited
    exit_code: Option<ExitStatus>,
    /// Error message
    error: Option<String>,
    /// Job creation timestamp
    created_at: UtcTime,
    /// Time this job run was last updated
    updated_at: UtcTime,
}

impl View for JobRun {
    type V = JobRunView;

    closed spec fn view(&self) -> JobRunView {
        JobRunView {
            job_run_id: self.job_run_id,
            job_id: self.job_id,
            queue_id: self.queue_id,
            worker_id: self.worker_id,
            claimed_at: self.claimed_at,
            status: self.status,
            scheduled_time: self.scheduled_time,
            attempt_count: self.attempt_count,
            started_at: self.started_at,
            ended_at: self.ended_at,
            exit_code: self.exit_code,
            error: self.error.deep_view(),
            created_at: self.created_at,
            updated_at: self.updated_at,
        }
    }
}

impl JobRun {
    /// Builds a job run from database informations.
    pub fn from_row(
        job_run_id: JobRunId,
        job_id: JobId,
        queue_id: QueueId,
        worker_id: Option<WorkerId>,
        claimed_at: Option<UtcTime>,
        status: JobRunStatus,
        scheduled_time: UtcTime,
        attempt_count: i32,
        started_at: Option<UtcTime>,
        ended_at: Option<UtcTime>,
        exit_code: Option<ExitStatus>,
        error: Option<String>,
        created_at: UtcTime,
        updated_at: UtcTime,
    ) -> (r: Self)
        ensures
            r@ == (JobRunView {
                job_run_id: job_run_id,
                job_id: job_id,
                queue_id: queue_id,
                worker_id: worker_id,
                claimed_at: claimed_at,
                status: status,
                scheduled_time: scheduled_time,
                attempt_count: attempt_count,
                started_at: started_at,
                ended_at: ended_at,
                exit_code: exit_code,
                error: error.deep_view(),
                created_at: created_at,
                updated_at: updated_at,
            }),
    {
        JobRun {
            job_run_id,
            job_id,
            queue_id,
            worker_id,
            claimed_at,
            status,
            scheduled_time,
            attempt_count,
            started_at,
            ended_at,
            exit_code,
            error,
            created_at,
            updated_at,
        }
    }

    pub fn job_run_id(&self) -> (r: &JobRunId)
        ensures
            *r == self@.job_run_id,
    {
        &self.job_run_id
    }

    pub fn job_id(&self) -> (r: &JobId)
        ensures
            *r == self@.job_id,
    {
        &self.job_id
    }

    pub fn queue_id(&self) -> (r: &QueueId)
        ensures
            *r == self@.queue_id,
    {
        &self.queue_id
    }

    pub fn worker_id(&self) -> (r: Option<WorkerId>)
        ensures
            r == self@.worker_id,
    {
        self.worker_id
    }

    pub fn claimed_at(&self) -> (r: Option<UtcTime>)
        ensures
            r == self@.claimed_at,
    {
        self.claimed_at
    }

    pub fn status(&self) -> (r: &JobRunStatus)
        ensures
            *r == self@.status,
    {
        &self.status
    }

    pub fn scheduled_time(&self) -> (r: &UtcTime)
        ensures
            *r == self@.scheduled_time,
    {
        &self.scheduled_time
    }

    pub fn attempt_count(&self) -> (r: i32)
        ensures
            r == self@.attempt_count,
    {
        self.attempt_count
    }

    pub fn started_at(&self) -> (r: Option<UtcTime>)
        ensures
            r == self@.started_at,
    {
        self.started_at
    }

    pub fn ended_at(&self) -> (r: Option<UtcTime>)
        ensures
            r == self@.ended_at,
    {
        self.ended_at
    }

    pub fn exit_code(&self) -> (r: Option<ExitStatus>)
        ensures
            r == self@.exit_code,
    {
        self.exit_code
    }

    pub fn error(&self) -> (r: Option<&str>)
        ensures
            r is Some == self@.error is Some,
            r matches Some(s) ==> self@.error == Some(s@),
    {
        match &self.error {
            Some(s) => Some(s.as_str()),
            None => None,
        }
    }

    pub fn created_at(&self) -> (r: &UtcTime)
        ensures
            *r == self@.created_at,
    {
        &self.created_at
    }

    pub fn updated_at(&self) -> (r: &UtcTime)
        ensures
            *r == self@.updated_at,
    {
        &self.updated_at
    }
}

} // verus!
