use repeatrs::cron::CronSchedule;
use repeatrs::domain::error::ValidationError;
use repeatrs::domain::id::{JobId, JobRunId, QueueId, WorkerId};
use repeatrs::domain::job::{
    CommandArgs, ContainerOptions, ContainerRunCommand, ImageName, Job, JobIdentity, JobOptions,
    JobResponse, JobStatus, RunCmd,
};
use repeatrs::domain::job_runs::{ExitStatus, JobRun, JobRunStatus, NewJobRun};
use repeatrs::domain::job_schedule_state::{JobScheduleState, NewJobScheduleState};
use repeatrs::domain::options::OptionMap;
use repeatrs::domain::queue::{queue_accepts_jobs, Queue, QueueStatus};
use repeatrs::domain::sanitized::SanitizedString;
use repeatrs::time::{Timestamp, UtcTime};

const UUID_TEXT: &str = "019c398e-4f39-79cd-b85f-a2ed4d79273f";
const UUID_BITS: u128 = 0x019c398e_4f39_79cd_b85f_a2ed4d79273f;

fn t(seconds: i64) -> UtcTime {
    UtcTime { seconds, nanos: 0 }
}

#[test]
fn sanitize_turns_spaces_into_underscores() {
    let s = SanitizedString::new("my daily job".to_string()).ok().unwrap();
    assert_eq!(s.as_str(), "my_daily_job");
}

#[test]
fn sanitize_keeps_letters_digits_and_underscores() {
    let s = SanitizedString::new("Ünïcode_42".to_string()).ok().unwrap();
    assert_eq!(s.as_str(), "Ünïcode_42");
}

#[test]
fn sanitize_refuses_other_characters() {
    match SanitizedString::new("my-job".to_string()) {
        Err(ValidationError::InvalidCharacters(v)) => assert_eq!(v, "my-job"),
        _ => panic!("expected invalid characters"),
    }
}

#[test]
fn sanitize_is_idempotent() {
    let once = SanitizedString::new("a b c".to_string()).ok().unwrap();
    let twice = SanitizedString::new(once.as_str().to_string()).ok().unwrap();
    assert_eq!(twice.as_str(), once.as_str());
}

#[test]
fn image_names_need_a_path_or_a_tag() {
    assert_eq!(ImageName::try_from("nginx:latest".to_string()).ok().unwrap().as_str(), "nginx:latest");
    assert_eq!(ImageName::try_from("test/repo".to_string()).ok().unwrap().as_str(), "test/repo");
    assert!(matches!(
        ImageName::try_from("nginx".to_string()),
        Err(ValidationError::InvalidImageName(n)) if n == "nginx"
    ));
    assert!(matches!(
        ImageName::try_from(" \t ".to_string()),
        Err(ValidationError::InvalidImageName(_))
    ));
    assert!(ImageName::try_from("".to_string()).is_err());
    assert_eq!(ImageName::new("anything").as_str(), "anything");
}

#[test]
fn run_command_is_optional() {
    assert_eq!(RunCmd::new(Some("echo".to_string())).as_str(), Some("echo"));
    assert_eq!(RunCmd::new(None).as_str(), None);
}

fn schedule() -> CronSchedule {
    CronSchedule::parse("* * * * *").ok().unwrap()
}

#[test]
fn job_options_clamp_and_default() {
    let o = JobOptions::new(schedule(), Some(20), Some(0), None, None);
    let job = Job::new(
        JobIdentity::new(
            SanitizedString::new("job".to_string()).ok().unwrap(),
            Some("desc".to_string()),
            SanitizedString::new("default".to_string()).ok().unwrap(),
        ),
        ContainerRunCommand::new(
            ContainerOptions::new(OptionMap::new()),
            ImageName::new("test/repo:latest"),
            RunCmd::new(None),
            CommandArgs::new(OptionMap::new()),
        ),
        o,
    );
    assert_eq!(job.max_retries(), 10);
    assert_eq!(job.priority(), 1);
    assert_eq!(job.max_concurrency(), 0);
    assert_eq!(job.timeout_seconds(), 7200);
    assert_eq!(job.job_name().as_str(), "job");
    assert_eq!(job.queue_name().as_str(), "default");
    assert_eq!(job.description(), Some("desc"));
    assert_eq!(job.image_name().as_str(), "test/repo:latest");
    assert_eq!(job.command().as_str(), None);
}

#[test]
fn job_options_keep_values_in_range() {
    let o = JobOptions::new(schedule(), Some(-4), Some(7), Some(3), Some(60));
    let job = Job::new(
        JobIdentity::new(
            SanitizedString::new("j".to_string()).ok().unwrap(),
            None,
            SanitizedString::new("q".to_string()).ok().unwrap(),
        ),
        ContainerRunCommand::new(
            ContainerOptions::new(OptionMap::new()),
            ImageName::new("a/b"),
            RunCmd::new(Some("run".to_string())),
            CommandArgs::new(OptionMap::new()),
        ),
        o,
    );
    assert_eq!(job.max_retries(), 0);
    assert_eq!(job.priority(), 7);
    assert_eq!(job.max_concurrency(), 3);
    assert_eq!(job.timeout_seconds(), 60);
    assert_eq!(job.description(), None);
}

#[test]
fn job_status_texts() {
    assert_eq!(JobStatus::Active.to_string(), "ACTIVE");
    assert_eq!(JobStatus::Inactive.to_string(), "INACTIVE");
    assert_eq!(JobStatus::from_str("INACTIVE"), Ok(JobStatus::Inactive));
    assert_eq!(JobStatus::from_str("active"), Err("Job status not understood.".to_string()));
    assert_eq!(JobStatus::default(), JobStatus::Active);
    for s in [JobStatus::Active, JobStatus::Inactive] {
        assert_eq!(JobStatus::from_str(&s.to_string()), Ok(s));
    }
}

#[test]
fn job_run_status_texts() {
    for s in [JobRunStatus::Queued, JobRunStatus::Running, JobRunStatus::Stopped, JobRunStatus::Failed, JobRunStatus::Skipped, JobRunStatus::Completed] {
        assert_eq!(JobRunStatus::from_str(&s.into_string()), Ok(s));
    }
    for s in [JobRunStatus::Running, JobRunStatus::Stopped, JobRunStatus::Failed, JobRunStatus::Skipped, JobRunStatus::Completed] {
        assert_eq!(JobRunStatus::from_str(&s.to_string()), Ok(s));
    }
    assert_eq!(JobRunStatus::Queued.to_string(), "ACTIVE");
    assert_eq!(JobRunStatus::Queued.into_string(), "QUEUED");
    assert!(JobRunStatus::from_str("ACTIVE").is_err());
    assert_eq!(JobRunStatus::default(), JobRunStatus::Queued);
}

#[test]
fn queue_status_texts() {
    assert_eq!(QueueStatus::Inactive.to_string(), "INACTIVE");
    assert_eq!(QueueStatus::from_str("ACTIVE"), Ok(QueueStatus::Active));
    assert_eq!(QueueStatus::from_str("x"), Err("Job status not understood.".to_string()));
    assert_eq!(QueueStatus::default(), QueueStatus::Active);
}

#[test]
fn exit_codes_and_statuses() {
    assert_eq!(ExitStatus::from(0), ExitStatus::PurposelyStopped);
    assert_eq!(ExitStatus::from(137), ExitStatus::ImmediateTermination);
    assert_eq!(ExitStatus::from(255), ExitStatus::OutOfRange);
    assert_eq!(ExitStatus::from(42), ExitStatus::Unknown(42));
    assert_eq!(i32::from(ExitStatus::SegmentationFault), 139);
    assert_eq!(i32::from(ExitStatus::Unknown(-1)), -1);
    for code in [-5, 0, 1, 2, 125, 126, 127, 128, 134, 137, 139, 143, 255, 256] {
        assert_eq!(i32::from(ExitStatus::from(code)), code);
    }
    // an Unknown holding a known code comes back as the known status
    assert_eq!(ExitStatus::from(i32::from(ExitStatus::Unknown(1))), ExitStatus::ApplicationError);
}

#[test]
fn ids_write_and_read_uuid_text() {
    let id = JobId::new(UUID_BITS);
    assert_eq!(id.to_string(), UUID_TEXT);
    assert_eq!(JobId::from_str(UUID_TEXT).ok().unwrap(), id);
    assert_eq!(QueueId::new(1).to_string(), "00000000-0000-0000-0000-000000000001");
    assert_eq!(WorkerId::from_str(UUID_TEXT).ok().unwrap().inner(), UUID_BITS);
    assert!(JobRunId::from_str("not-a-uuid").is_err());
    assert_eq!(u128::from(JobId::from(7u128)), 7);
}

fn response(schedule_text: &str) -> JobResponse {
    JobResponse::from_row(
        JobId::new(UUID_BITS),
        "job".to_string(),
        None,
        CronSchedule::parse(schedule_text).ok().unwrap(),
        Some("-d".to_string()),
        "test/repo:latest".to_string(),
        Some("echo".to_string()),
        None,
        3,
        JobStatus::Inactive,
        5,
        QueueId::new(2),
        "default".to_string(),
        100,
        Some(60),
        t(1),
        t(2),
    )
}

#[test]
fn job_response_lists_as_a_job_item() {
    let r = response("* * * * *");
    let item = r.to_job_item("other");
    assert_eq!(item.job_id, UUID_TEXT);
    assert_eq!(item.job_name, "job");
    assert_eq!(item.status, "INACTIVE");
    assert_eq!(item.schedule, "* * * * *");
    assert_eq!(item.image_name, "test/repo:latest");
    assert_eq!(item.queue_name, "other");
    assert_eq!(item.max_retries, 3);
    assert_eq!(item.priority, 5);
    assert!(!item.no_retry);
    assert!(item.next_occurrence_at.is_none());
    assert_eq!(r.queue_name(), "default");
    assert_eq!(r.image_options(), Some("-d"));
    assert_eq!(r.timeout_seconds(), Some(60));
    assert_eq!(r.created_at(), t(1));
    assert_eq!(r.updated_at(), t(2));
}

#[test]
fn cron_text_is_the_normalised_pattern() {
    let c = CronSchedule::parse("  * * * * *  ").ok().unwrap();
    assert_eq!(c.to_string(), "* * * * *");
    let m = CronSchedule::parse("0 0 * * mon").ok().unwrap();
    assert_ne!(m.to_string(), "0 0 * * mon");
    assert!(CronSchedule::parse("not a cron").is_err());
    assert!(CronSchedule::parse("").is_err());
}

#[test]
fn queue_lists_as_a_queue_item() {
    let q = Queue {
        queue_id: QueueId::new(3),
        queue_name: "default".to_string(),
        status: QueueStatus::Active,
        capacity: 10,
        used_capacity: 4,
        created_at: UtcTime { seconds: 1_700_000_000, nanos: 5 },
        updated_at: t(0),
    };
    let item = q.to_queue_item();
    assert_eq!(item.queue_name, "default");
    assert_eq!(item.status, "ACTIVE");
    assert_eq!(item.capacity, 10);
    assert_eq!(item.used_capacity, 4);
    assert_eq!(item.created_at, Some(Timestamp { seconds: 1_700_000_000, nanos: 5 }));
}

#[test]
fn job_runs_and_schedule_states_keep_their_values() {
    let n = NewJobRun::new(&JobId::new(1), &QueueId::new(2), &t(30));
    assert_eq!(*n.job_id(), JobId::new(1));
    assert_eq!(*n.queue_id(), QueueId::new(2));
    assert_eq!(n.scheduled_time(), t(30));
    let r = JobRun::from_row(
        JobRunId::new(9),
        JobId::new(1),
        QueueId::new(2),
        Some(WorkerId::new(4)),
        None,
        JobRunStatus::Failed,
        t(30),
        2,
        Some(t(31)),
        Some(t(40)),
        Some(ExitStatus::from(1)),
        Some("boom".to_string()),
        t(29),
        t(41),
    );
    assert_eq!(*r.job_run_id(), JobRunId::new(9));
    assert_eq!(r.worker_id(), Some(WorkerId::new(4)));
    assert_eq!(*r.status(), JobRunStatus::Failed);
    assert_eq!(r.attempt_count(), 2);
    assert_eq!(r.exit_code(), Some(ExitStatus::ApplicationError));
    assert_eq!(r.error(), Some("boom"));
    assert_eq!(*r.updated_at(), t(41));
    let s = JobScheduleState::new(JobId::new(5), t(60));
    assert_eq!(s.job_id_inner(), 5);
    assert_eq!(*s.next_run_at(), t(60));
    assert_eq!(s.last_scheduled_at(), None);
    let ns = NewJobScheduleState::new(&JobId::new(6), t(61));
    assert_eq!(ns.job_id_inner(), 6);
    assert_eq!(ns.next_run_at(), t(61));
}

#[test]
fn a_daily_schedule_next_fires_at_midnight() {
    let daily = CronSchedule::parse("0 0 * * *").ok().unwrap();
    // 2024-01-01 12:00:00 UTC
    let next = daily.next_occurrence(t(1704110400), false).ok().unwrap();
    assert_eq!(next, t(1704153600));
    // 2024-01-01 00:00:00 UTC is itself an occurrence
    assert_eq!(daily.next_occurrence(t(1704067200), true).ok().unwrap(), t(1704067200));
    assert_eq!(daily.next_occurrence(t(1704067200), false).ok().unwrap(), t(1704153600));
}

#[test]
fn a_time_chrono_lacks_has_no_next_occurrence() {
    let daily = CronSchedule::parse("0 0 * * *").ok().unwrap();
    assert!(daily.next_occurrence_checked(t(i64::MAX), false).is_none());
    let found = daily.next_occurrence_checked(t(1704110400), false).unwrap();
    assert_eq!(found.ok().unwrap(), t(1704153600));
}

#[test]
fn the_next_occurrence_of_a_job_lies_ahead() {
    let before = std::time::SystemTime::now().duration_since(std::time::UNIX_EPOCH).unwrap().as_secs() as i64;
    let next = response("* * * * *").calculate_next_occurrence(false).ok().unwrap();
    assert!(next.seconds > before);
    assert!(next.seconds <= before + 61);
    assert_eq!(next.seconds % 60, 0);
}

#[test]
fn only_an_active_queue_takes_new_jobs() {
    assert!(queue_accepts_jobs(QueueStatus::Active));
    assert!(!queue_accepts_jobs(QueueStatus::Inactive));
    assert!(queue_accepts_jobs(QueueStatus::default()));
}
