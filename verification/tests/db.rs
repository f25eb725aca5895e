use repeatrs::db::error::DbError;
use repeatrs::db::job_runs::{insert_columns, DbJobRunId, DbJobRunStatus};
use repeatrs::db::job_schedule_state::DbJobScheduleState as DbScheduleWithLast;
use repeatrs::db::job_schedules::{upsert_columns, DbJobScheduleState};
use repeatrs::db::jobs::{DbJobId, DbJobStatus, JobRow};
use repeatrs::db::queues::{DbQueueId, DbQueueStatus, QueueRow};
use repeatrs::db::workers::{DbWorkerId, WorkerStatus};
use repeatrs::domain::id::{JobId, JobRunId, QueueId, WorkerId};
use repeatrs::domain::job::{JobResponse, JobStatus};
use repeatrs::domain::job_runs::{JobRunStatus, NewJobRun};
use repeatrs::domain::job_schedule_state::{JobScheduleState, NewJobScheduleState};
use repeatrs::domain::queue::{Queue, QueueStatus};
use repeatrs::time::UtcTime;

fn t(seconds: i64) -> UtcTime {
    UtcTime { seconds, nanos: 0 }
}

fn row(schedule: &str, timeout: Option<i32>) -> JobRow {
    JobRow {
        job_id: DbJobId(11),
        job_name: "backup".to_string(),
        description: Some("nightly".to_string()),
        schedule: schedule.to_string(),
        options: Some("-d".to_string()),
        image_name: "repo/img:1".to_string(),
        command: None,
        args: Some("--fast".to_string()),
        max_retries: 2,
        status: DbJobStatus::Inactive,
        priority: 4,
        queue_id: DbQueueId(12),
        queue_name: "default".to_string(),
        max_concurrency: 9,
        timeout_seconds: timeout,
        created_at: t(100),
        updated_at: t(200),
    }
}

#[test]
fn a_row_reads_as_a_job_response() {
    let r = JobResponse::try_from(row("0 0 * * *", Some(30))).ok().unwrap();
    assert_eq!(*r.job_id(), JobId::new(11));
    assert_eq!(r.job_name(), "backup");
    assert_eq!(r.description(), Some("nightly"));
    assert_eq!(r.image_options(), Some("-d"));
    assert_eq!(r.command(), None);
    assert_eq!(r.command_args(), Some("--fast"));
    assert_eq!(*r.status(), JobStatus::Inactive);
    assert_eq!(*r.queue_id(), QueueId::new(12));
    assert_eq!(r.timeout_seconds(), Some(30));
    assert_eq!(r.max_concurrency(), 9);
}

#[test]
fn a_row_with_a_bad_schedule_is_a_cron_error() {
    assert!(matches!(JobResponse::try_from(row("every day", None)), Err(DbError::Cron(_))));
}

#[test]
fn a_row_read_and_stored_again_is_the_same_but_for_the_schedule() {
    let stored = row(" 0 0 * * * ", Some(-7));
    let r = JobResponse::try_from(stored).ok().unwrap();
    let back = JobRow::from(&r);
    let expected = row(" 0 0 * * * ", Some(-7));
    assert_eq!(back.schedule, "0 0 * * *");
    assert_eq!(back.job_id, expected.job_id);
    assert_eq!(back.job_name, expected.job_name);
    assert_eq!(back.description, expected.description);
    assert_eq!(back.options, expected.options);
    assert_eq!(back.args, expected.args);
    assert_eq!(back.status, expected.status);
    assert_eq!(back.queue_id, expected.queue_id);
    assert_eq!(back.timeout_seconds, Some(-7));
    assert_eq!(back.created_at, expected.created_at);
    assert_eq!(back.updated_at, expected.updated_at);
    assert_eq!(back.job_id(), DbJobId(11));
    assert_eq!(back.job_name(), "backup");
}

#[test]
fn status_vocabularies_correspond() {
    assert_eq!(JobStatus::from(DbJobStatus::Active), JobStatus::Active);
    assert_eq!(DbJobStatus::from(JobStatus::Inactive), DbJobStatus::Inactive);
    assert_eq!(DbJobStatus::from(&JobStatus::Active), DbJobStatus::Active);
    assert_eq!(QueueStatus::from(DbQueueStatus::Inactive), QueueStatus::Inactive);
    assert_eq!(DbJobStatus::default(), DbJobStatus::Active);
    assert_eq!(DbQueueStatus::default(), DbQueueStatus::Active);
}

#[test]
fn job_run_statuses_as_stored() {
    assert_eq!(DbJobRunStatus::from_job_run_status(JobRunStatus::Running), Some(DbJobRunStatus::Running));
    assert_eq!(DbJobRunStatus::from_job_run_status(JobRunStatus::Skipped), None);
    assert_eq!(DbJobRunStatus::Running.to_string(), "RUNING");
    assert_eq!(DbJobRunStatus::Queued.to_string(), "QUEUED");
    assert_eq!(DbJobRunStatus::from_str("PENDING"), Ok(DbJobRunStatus::Queued));
    assert_eq!(DbJobRunStatus::from_str("QUEUED"), Err("Job Run Status not understood".to_string()));
    assert!(DbJobRunStatus::from_str(&DbJobRunStatus::Running.to_string()).is_err());
    for s in [DbJobRunStatus::Stopped, DbJobRunStatus::Failed, DbJobRunStatus::Completed] {
        assert_eq!(DbJobRunStatus::from_str(&s.to_string()), Ok(s));
    }
    assert_eq!(DbJobRunStatus::default(), DbJobRunStatus::Queued);
}

#[test]
fn worker_statuses_read_back() {
    for s in [
        WorkerStatus::Starting,
        WorkerStatus::Alive,
        WorkerStatus::Terminated,
        WorkerStatus::Terminating,
        WorkerStatus::Stale,
    ] {
        assert_eq!(WorkerStatus::from_str(&s.to_string()), Ok(s));
    }
    assert_eq!(WorkerStatus::from_str("DEAD"), Err("VM status not understood".to_string()));
}

#[test]
fn ids_convert_between_layers() {
    assert_eq!(JobId::from(DbJobId(3)), JobId::new(3));
    assert_eq!(DbJobId::from(JobId::new(4)), DbJobId(4));
    assert_eq!(DbJobId::from(&JobId::new(5)), DbJobId(5));
    assert_eq!(QueueId::from(DbQueueId::new(6)), QueueId::new(6));
    assert_eq!(DbQueueId::from(&QueueId::new(7)), DbQueueId(7));
    assert_eq!(WorkerId::from(DbWorkerId::from(8u128)), WorkerId::new(8));
    assert_eq!(DbWorkerId::from(&WorkerId::new(9)), DbWorkerId(9));
    assert_eq!(JobRunId::from(DbJobRunId::from(10u128)), JobRunId::new(10));
    assert_eq!(DbJobRunId::from(&JobRunId::new(11)), DbJobRunId(11));
}

#[test]
fn a_queue_row_becomes_a_queue_with_its_times() {
    let q = Queue::from(QueueRow {
        queue_id: DbQueueId(1),
        queue_name: "default".to_string(),
        status: DbQueueStatus::Active,
        capacity: 5,
        used_capacity: 1,
        created_at: t(10),
        updated_at: t(20),
    });
    assert_eq!(q.queue_id, QueueId::new(1));
    assert_eq!(q.queue_name, "default");
    assert_eq!(q.status, QueueStatus::Active);
    assert_eq!(q.created_at, t(10));
    assert_eq!(q.updated_at, t(20));
}

#[test]
fn insert_columns_follow_the_runs() {
    assert!(insert_columns(&[]).is_none());
    let runs = [
        NewJobRun::new(&JobId::new(1), &QueueId::new(9), &t(5)),
        NewJobRun::new(&JobId::new(2), &QueueId::new(9), &t(6)),
    ];
    let (ids, times) = insert_columns(&runs).unwrap();
    assert_eq!(ids, vec![DbJobId(1), DbJobId(2)]);
    assert_eq!(times, vec![t(5), t(6)]);
}

#[test]
fn schedule_states_are_stored_with_their_next_run() {
    assert!(upsert_columns(&[]).is_none());
    let a = DbJobScheduleState::from(&NewJobScheduleState::new(&JobId::new(3), t(7)));
    let b = DbJobScheduleState::from(JobScheduleState::new(JobId::new(4), t(8)));
    assert_eq!(a.job_id_inner(), 3);
    assert_eq!(b.next_run_at(), t(8));
    let (ids, times) = upsert_columns(&[a, b]).unwrap();
    assert_eq!(ids, vec![3, 4]);
    assert_eq!(times, vec![t(7), t(8)]);
    let c = DbScheduleWithLast::from(&JobScheduleState::new(JobId::new(5), t(9)));
    assert_eq!(c.job_id, 5);
    assert_eq!(c.last_scheduled_at, None);
}

#[test]
fn a_response_stored_and_read_again_is_the_same() {
    let r = JobResponse::try_from(row("0 0 * * *", Some(30))).ok().unwrap();
    let again = JobResponse::try_from(JobRow::from(&r)).ok().unwrap();
    assert_eq!(again.job_id(), r.job_id());
    assert_eq!(again.job_name(), r.job_name());
    assert_eq!(again.description(), r.description());
    assert_eq!(again.schedule().to_string(), r.schedule().to_string());
    assert_eq!(again.image_options(), r.image_options());
    assert_eq!(again.image_name(), r.image_name());
    assert_eq!(again.command(), r.command());
    assert_eq!(again.command_args(), r.command_args());
    assert_eq!(again.max_retries(), r.max_retries());
    assert_eq!(again.status(), r.status());
    assert_eq!(again.priority(), r.priority());
    assert_eq!(again.queue_id(), r.queue_id());
    assert_eq!(again.queue_name(), r.queue_name());
    assert_eq!(again.max_concurrency(), r.max_concurrency());
    assert_eq!(again.timeout_seconds(), Some(30));
    assert_eq!(again.created_at(), r.created_at());
    assert_eq!(again.updated_at(), r.updated_at());
}
