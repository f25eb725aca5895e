//! Jobs as the database stores them.

use crate::cron::{cron_accepts, cron_text, CronSchedule};
use crate::db::error::DbError;
use crate::db::queues::DbQueueId;
use crate::domain::id::{JobId, QueueId};
use crate::domain::job::{JobResponse, JobResponseView, JobStatus};
use crate::time::UtcTime;
use vstd::prelude::*;

verus! {

/// Access to the `jobs` table.
#[derive(Clone)]
pub struct PgJobRepository;

/// The database identifier of a job.
#[derive(Debug, Clone, Copy, PartialEq, Eq, Structural)]
pub struct DbJobId(pub u128);

impl From<DbJobId> for JobId {
    fn from(value: DbJobId) -> (r: Self) {
        JobId::new(value.0)
    }
}

impl vstd::std_specs::convert::FromSpecImpl<DbJobId> for JobId {
    open spec fn obeys_from_spec() -> bool {
        true
    }

    open spec fn from_spec(v: DbJobId) -> JobId {
        JobId(v.0)
    }
}

impl From<JobId> for DbJobId {
    fn from(value: JobId) -> (r: Self) {
        DbJobId(value.inner())
    }
}

impl vstd::std_specs::convert::FromSpecImpl<JobId> for DbJobId {
    open spec fn obeys_from_spec() -> bool {
        true
    }

    open spec fn from_spec(v: JobId) -> DbJobId {
        DbJobId(v.0)
    }
}

impl<'a> From<&'a JobId> for DbJobId {
    fn from(value: &'a JobId) -> (r: Self) {
        DbJobId(value.inner())
    }
}

impl<'a> vstd::std_specs::convert::FromSpecImpl<&'a JobId> for DbJobId {
    open spec fn obeys_from_spec() -> bool {
        true
    }

    open spec fn from_spec(v: &'a JobId) -> DbJobId {
        DbJobId(v.0)
    }
}

/// The status of a job in the database.
#[derive(Debug, Clone, Copy, PartialEq, Eq, Structural)]
pub enum DbJobStatus {
    /// Job can be scheduled for execution
    Active,
    /// Job is not going to be scheduled for execution
    Inactive,
}

impl DbJobStatus {
    /// The status of a new job: `Active`.
    pub fn default() -> (r: Self)
        ensures
            r == DbJobStatus::Active,
    {
        DbJobStatus::Active
    }
}

/// The domain status of a stored job status.
pub open spec fn job_status_of(s: DbJobStatus) -> JobStatus {
    match s {
        DbJobStatus::Active => JobStatus::Active,
        DbJobStatus::Inactive => JobStatus::Inactive,
    }
}

/// The stored status of a domain job status.
pub open spec fn db_job_status_of(s: JobStatus) -> DbJobStatus {
    match s {
        JobStatus::Active => DbJobStatus::Active,
        JobStatus::Inactive => DbJobStatus::Inactive,
    }
}

impl From<DbJobStatus> for JobStatus {
    fn from(value: DbJobStatus) -> (r: Self) {
        match value {
            DbJobStatus::Active => JobStatus::Active,
            DbJobStatus::Inactive => JobStatus::Inactive,
        }
    }
}

impl vstd::std_specs::convert::FromSpecImpl<DbJobStatus> for JobStatus {
    open spec fn obeys_from_spec() -> bool {
        true
    }

    open spec fn from_spec(v: DbJobStatus) -> JobStatus {
        job_status_of(v)
    }
}

impl From<JobStatus> for DbJobStatus {
    fn from(value: JobStatus) -> (r: Self) {
        match value {
            JobStatus::Active => DbJobStatus::Active,
            JobStatus::Inactive => DbJobStatus::Inactive,
        }
    }
}

impl vstd::std_specs::convert::FromSpecImpl<JobStatus> for DbJobStatus {
    open spec fn obeys_from_spec() -> bool {
        true
    }

    open spec fn from_spec(v: JobStatus) -> DbJobStatus {
        db_job_status_of(v)
    }
}

impl<'a> From<&'a JobStatus> for DbJobStatus {
    fn from(value: &'a JobStatus) -> (r: Self) {
        DbJobStatus::from(*value)
    }
}

impl<'a> vstd::std_specs::convert::FromSpecImpl<&'a JobStatus> for DbJobStatus {
    open spec fn obeys_from_spec() -> bool {
        true
    }

    open spec fn from_spec(v: &'a JobStatus) -> DbJobStatus {
        db_job_status_of(*v)
    }
}

/// The two status vocabularies correspond one to one.
pub proof fn lemma_job_status_bijection(s: JobStatus, d: DbJobStatus)
    ensures
        job_status_of(db_job_status_of(s)) == s,
        db_job_status_of(job_status_of(d)) == d,
{
}

/// A job row, as a value.
pub struct JobRowView {
    pub job_id: DbJobId,
    pub job_name: Seq<char>,
    pub description: Option<Seq<char>>,
    pub schedule: Seq<char>,
    pub options: Option<Seq<char>>,
    pub image_name: Seq<char>,
    pub command: Option<Seq<char>>,
    pub args: Option<Seq<char>>,
    pub max_retries: i32,
    pub status: DbJobStatus,
    pub priority: i32,
    pub queue_id: DbQueueId,
    pub queue_name: Seq<char>,
    pub max_concurrency: i32,
    pub timeout_seconds: Option<i32>,
    pub created_at: UtcTime,
    pub updated_at: UtcTime,
}

/// A job as the database stores it.
#[derive(Debug)]
pub struct JobRow {
    /// Unique ID of the job, primary key
    pub job_id: DbJobId,
    /// Unique job name
    pub job_name: String,
    /// The job description
    pub description: Option<String>,
    /// schedule of the cronjob or execution time
    pub schedule: String,
    /// Options for running the container
    pub options: Option<String>,
    /// Image name as <optional_registry>/<image_name>:tag
    pub image_name: String,
    /// The command to run the container
    pub command: Option<String>,
    /// Arguments for the command
    pub args: Option<String>,
    /// Retry the job if last execution failed
    pub max_retries: i32,
    /// Current status of the job
    pub status: DbJobStatus,
    /// Job priority
    pub priority: i32,
    /// Identifier of the queue this job belongs to
    pub queue_id: DbQueueId,
    /// Name of the queue this job belongs to
    pub queue_name: String,
    /// Maximum number of identical jobs running concurrently
    pub max_concurrency: i32,
    /// A hard limit on the duration of the job, in seconds
    pub timeout_seconds: Option<i32>,
    /// Job creation timestamp
    pub created_at: UtcTime,
    /// Time the job was last updated
    pub updated_at: UtcTime,
}

impl View for JobRow {
    type V = JobRowView;

    open spec fn view(&self) -> JobRowView {
        JobRowView {
            job_id: self.job_id,
            job_name: self.job_name@,
            description: self.description.deep_view(),
            schedule: self.schedule@,
            options: self.options.deep_view(),
            image_name: self.image_name@,
            command: self.command.deep_view(),
            args: self.args.deep_view(),
            max_retries: self.max_retries,
            status: self.status,
            priority: self.priority,
            queue_id: self.queue_id,
            queue_name: self.queue_name@,
            max_concurrency: self.max_concurrency,
            timeout_seconds: self.timeout_seconds,
            created_at: self.created_at,
            updated_at: self.updated_at,
        }
    }
}

/// A timeout in whole seconds, as stored: brought into the range of `i32`.
pub open spec fn stored_timeout(t: Option<i64>) -> Option<i32> {
    match t {
        Some(s) => Some(
            if s < i32::MIN {
                i32::MIN
            } else if s > i32::MAX {
                i32::MAX
            } else {
                s as i32
            },
        ),
        None => None,
    }
}

/// The job response read from a row whose schedule `croner` accepts.
pub open spec fn response_of_row(r: JobRowView) -> JobResponseView {
    JobResponseView {
        job_id: JobId(r.job_id.0),
        job_name: r.job_name,
        description: r.description,
        schedule: r.schedule,
        image_options: r.options,
        image_name: r.image_name,
        command: r.command,
        command_args: r.args,
        max_retries: r.max_retries,
        status: job_status_of(r.status),
        priority: r.priority,
        queue_id: QueueId(r.queue_id.0),
        queue_name: r.queue_name,
        max_concurrency: r.max_concurrency,
        timeout_seconds: match r.timeout_seconds {
            Some(t) => Some(t as i64),
            None => None,
        },
        created_at: r.created_at,
        updated_at: r.updated_at,
    }
}

/// The row stored for a job response; its schedule is the text that
/// `croner` writes for the response's pattern.
pub open spec fn row_of_response(v: JobResponseView) -> JobRowView {
    JobRowView {
        job_id: DbJobId(v.job_id.0),
        job_name: v.job_name,
        description: v.description,
        schedule: cron_text(v.schedule),
        options: v.image_options,
        image_name: v.image_name,
        command: v.command,
        args: v.command_args,
        max_retries: v.max_retries,
        status: db_job_status_of(v.status),
        priority: v.priority,
        queue_id: DbQueueId(v.queue_id.0),
        queue_name: v.queue_name,
        max_concurrency: v.max_concurrency,
        timeout_seconds: stored_timeout(v.timeout_seconds),
        created_at: v.created_at,
        updated_at: v.updated_at,
    }
}

fn opt_to_owned(s: Option<&str>) -> (r: Option<String>)
    ensures
        r is Some == s is Some,
        r matches Some(v) ==> s matches Some(w) && v@ == w@,
{
    match s {
        Some(v) => Some(v.to_owned()),
        None => None,
    }
}

impl JobRow {
    pub fn job_id(&self) -> (r: DbJobId)
        ensures
            r == self.job_id,
    {
        self.job_id
    }

    pub fn job_name(&self) -> (r: String)
        ensures
            r@ == self.job_name@,
    {
        self.job_name.clone()
    }

    /// The row stored for a job response (see `row_of_response`).
    pub fn from(value: &JobResponse) -> (r: JobRow)
        ensures
            r@ == row_of_response(value@),
    {
        let timeout_seconds = match value.timeout_seconds() {
            Some(d) => Some(
                if d < i32::MIN as i64 {
                    i32::MIN
                } else if d > i32::MAX as i64 {
                    i32::MAX
                } else {
                    d as i32
                },
            ),
            None => None,
        };
        JobRow {
            job_id: DbJobId(value.job_id().inner()),
            job_name: value.job_name().to_owned(),
            description: opt_to_owned(value.description()),
            schedule: value.schedule().to_string(),
            options: opt_to_owned(value.image_options()),
            image_name: value.image_name().to_owned(),
            command: opt_to_owned(value.command()),
            args: opt_to_owned(value.command_args()),
            max_retries: value.max_retries(),
            status: DbJobStatus::from(*value.status()),
            priority: value.priority(),
            queue_id: DbQueueId::from(*value.queue_id()),
            max_concurrency: value.max_concurrency(),
            timeout_seconds,
            created_at: value.created_at(),
            updated_at: value.updated_at(),
            queue_name: value.queue_name().to_owned(),
        }
    }
}

impl JobResponse {
    /// Reads a row as a job response; a schedule that `croner` refuses
    /// is reported as `DbError::Cron`.
    pub fn try_from(value: JobRow) -> (r: Result<JobResponse, DbError>)
        ensures
            r is Ok <==> cron_accepts(value@.schedule),
            r matches Ok(j) ==> j@ == response_of_row(value@),
            r matches Err(e) ==> e is Cron,
    {
        let schedule = match CronSchedule::parse(value.schedule.as_str()) {
            Ok(c) => c,
            Err(e) => return Err(DbError::Cron(e)),
        };
        let timeout_seconds = match value.timeout_seconds {
            Some(t) => Some(t as i64),
            None => None,
        };
        let job = JobResponse::from_row(
            JobId::new(value.job_id.0),
            value.job_name,
            value.description,
            schedule,
            value.options,
            value.image_name,
            value.command,
            value.args,
            value.max_retries,
            JobStatus::from(value.status),
            value.priority,
            QueueId::from(value.queue_id),
            value.queue_name,
            value.max_concurrency,
            timeout_seconds,
            value.created_at,
            value.updated_at,
        );
        Ok(job)
    }
}

/// Reading a row keeps each column in its own field, and so does storing a
/// response: the identifiers carry the same value, the texts, counts and
/// times are copied, the status is the one of the same name; only the
/// schedule is stored as `croner` writes it, and a timeout is brought into
/// the range of `i32` to be stored.
pub proof fn lemma_columns_kept(r: JobRowView, v: JobResponseView)
    ensures
        ({
            let j = response_of_row(r);
            &&& j.job_id.0 == r.job_id.0
            &&& j.job_name == r.job_name
            &&& j.description == r.description
            &&& j.schedule == r.schedule
            &&& j.image_options == r.options
            &&& j.image_name == r.image_name
            &&& j.command == r.command
            &&& j.command_args == r.args
            &&& j.max_retries == r.max_retries
            &&& (r.status == DbJobStatus::Active <==> j.status == JobStatus::Active)
            &&& (r.status == DbJobStatus::Inactive <==> j.status == JobStatus::Inactive)
            &&& j.priority == r.priority
            &&& j.queue_id.0 == r.queue_id.0
            &&& j.queue_name == r.queue_name
            &&& j.max_concurrency == r.max_concurrency
            &&& (r.timeout_seconds matches Some(t) ==> j.timeout_seconds == Some(t as i64))
            &&& (r.timeout_seconds is None ==> j.timeout_seconds is None)
            &&& j.created_at == r.created_at
            &&& j.updated_at == r.updated_at
        }),
        ({
            let w = row_of_response(v);
            &&& w.job_id.0 == v.job_id.0
            &&& w.job_name == v.job_name
            &&& w.description == v.description
            &&& w.schedule == cron_text(v.schedule)
            &&& w.options == v.image_options
            &&& w.image_name == v.image_name
            &&& w.command == v.command
            &&& w.args == v.command_args
            &&& w.max_retries == v.max_retries
            &&& (v.status == JobStatus::Active <==> w.status == DbJobStatus::Active)
            &&& (v.status == JobStatus::Inactive <==> w.status == DbJobStatus::Inactive)
            &&& w.priority == v.priority
            &&& w.queue_id.0 == v.queue_id.0
            &&& w.queue_name == v.queue_name
            &&& w.max_concurrency == v.max_concurrency
            &&& (v.timeout_seconds matches Some(t) ==> (i32::MIN <= t && t <= i32::MAX
                ==> w.timeout_seconds == Some(t as i32)))
            &&& (v.timeout_seconds is None ==> w.timeout_seconds is None)
            &&& w.created_at == v.created_at
            &&& w.updated_at == v.updated_at
        }),
{
}

/// `JobRow::from(&JobResponse::try_from(row))` gives `row` back: reading a
/// row and storing it again gives the same row, except that the
/// schedule is stored as `croner` writes it.
pub proof fn lemma_row_roundtrip(r: JobRowView)
    ensures
        row_of_response(response_of_row(r)) == (JobRowView { schedule: cron_text(r.schedule), ..r }),
{
    lemma_job_status_bijection(JobStatus::Active, r.status);
}

/// `JobResponse::try_from(JobRow::from(&r))` gives `r` back: storing a job
/// response and reading the row again gives the same response, except that
/// the schedule is read from the text that `croner` writes for it; where that
/// text is the schedule's own, the very same response. A timeout must fit in
/// an `i32` to be stored unchanged. (Reading succeeds exactly where `croner`
/// accepts the written schedule: see `JobResponse::try_from`.)
pub proof fn lemma_response_roundtrip(v: JobResponseView)
    requires
        v.timeout_seconds matches Some(t) ==> i32::MIN <= t <= i32::MAX,
    ensures
        response_of_row(row_of_response(v)) == (JobResponseView { schedule: cron_text(v.schedule), ..v }),
        cron_text(v.schedule) == v.schedule ==> response_of_row(row_of_response(v)) == v,
{
    lemma_job_status_bijection(v.status, DbJobStatus::Active);
}

} // verus!
