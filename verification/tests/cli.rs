use repeatrs::cli::config::{Config, REQUEST_TIMEOUT_MS, SCHEDULER_GRPC_URL};
use repeatrs::cli::error::CliError;
use repeatrs::cli::job::{AddJobArgs, JobDisplay, JobIdentifierArgs};
use repeatrs::cli::queue::{QueueDisplay, QueueIdentifierArgs};
use repeatrs::proto::{AddJobRequest, JobIdentifier, JobItem, QueueIdentifier, QueueItem};
use repeatrs::time::{display_time, Timestamp};

fn args() -> AddJobArgs {
    AddJobArgs {
        file: None,
        job_name: Some("test-job".to_string()),
        description: Some("A test job".to_string()),
        schedule: Some("* * * * *".to_string()),
        options: None,
        image_name: Some("test/repo:latest".to_string()),
        command: Some("echo".to_string()),
        args: Some(vec!["hello".to_string()]),
        no_retry: Some(false),
        priority: None,
        queue_name: Some("default".to_string()),
        max_concurrency: Some(100),
        timeout_seconds: Some(3600),
        dry_run: false,
    }
}

fn empty() -> AddJobArgs {
    AddJobArgs {
        file: None,
        job_name: None,
        description: None,
        schedule: None,
        options: None,
        image_name: None,
        command: None,
        args: None,
        no_retry: None,
        priority: None,
        queue_name: None,
        max_concurrency: None,
        timeout_seconds: None,
        dry_run: false,
    }
}

#[test]
fn add_job_arguments_become_a_request() {
    let req = AddJobRequest::try_from_args(args()).ok().unwrap();
    assert_eq!(req.job_name, "test-job");
    assert_eq!(req.description, Some("A test job".to_string()));
    assert_eq!(req.schedule, "* * * * *");
    assert_eq!(req.image_name, "test/repo:latest");
    assert_eq!(req.command, Some("echo".to_string()));
    assert_eq!(req.args, vec!["hello".to_string()]);
    assert!(!req.no_retry);
    assert_eq!(req.priority, 1);
    assert_eq!(req.max_concurrency, 100);
    assert_eq!(req.timeout_seconds, 3600);
}

#[test]
fn missing_fields_are_reported_in_order() {
    assert!(matches!(AddJobRequest::try_from_args(empty()), Err(CliError::Cli("Missing job name"))));
    let mut a = empty();
    a.job_name = Some("n".to_string());
    assert!(matches!(AddJobRequest::try_from_args(a), Err(CliError::Cli("Missing job schedule"))));
    let mut a = empty();
    a.job_name = Some("n".to_string());
    a.schedule = Some("* * * * *".to_string());
    assert!(matches!(AddJobRequest::try_from_args(a), Err(CliError::Cli("Missing image name"))));
    let mut a = empty();
    a.job_name = Some("n".to_string());
    a.schedule = Some("* * * * *".to_string());
    a.image_name = Some("a/b".to_string());
    assert!(matches!(AddJobRequest::try_from_args(a), Err(CliError::Cli("Missing queue name"))));
}

#[test]
fn defaults_fill_what_is_not_given() {
    let mut a = empty();
    a.job_name = Some("n".to_string());
    a.schedule = Some("* * * * *".to_string());
    a.image_name = Some("a/b".to_string());
    a.queue_name = Some("q".to_string());
    let req = AddJobRequest::try_from_args(a).ok().unwrap();
    assert_eq!(req.priority, 1);
    assert_eq!(req.max_concurrency, 100);
    assert_eq!(req.timeout_seconds, 7200);
    assert!(req.args.is_empty());
    assert!(!req.no_retry);
}

#[test]
fn an_invalid_schedule_is_caught_before_building() {
    let mut a = args();
    a.schedule = Some("whenever".to_string());
    assert!(AddJobRequest::try_from_args_checked(a).is_none());
    assert!(AddJobRequest::try_from_args_checked(args()).unwrap().is_ok());
    let mut a = empty();
    a.schedule = Some("whenever".to_string());
    // without a name the name is missing first
    assert!(matches!(
        AddJobRequest::try_from_args_checked(a),
        Some(Err(CliError::Cli("Missing job name")))
    ));
}

#[test]
fn the_command_line_takes_precedence_over_the_file() {
    let mut cli = empty();
    cli.job_name = Some("cli-name".to_string());
    cli.priority = Some(9);
    let mut file = args();
    file.job_name = Some("file-name".to_string());
    file.priority = Some(2);
    file.timeout_seconds = None;
    let req = cli.resolve(Some(file)).ok().unwrap();
    assert_eq!(req.job_name, "cli-name");
    assert_eq!(req.priority, 9);
    assert_eq!(req.schedule, "* * * * *");
    assert_eq!(req.image_name, "test/repo:latest");
    assert_eq!(req.timeout_seconds, 7200);
    assert_eq!(req.args, vec!["hello".to_string()]);
}

#[test]
fn resolving_without_a_file_is_the_command_line_alone() {
    let req = args().resolve(None).ok().unwrap();
    let direct = AddJobRequest::try_from_args(args()).ok().unwrap();
    assert_eq!(req.job_name, direct.job_name);
    assert_eq!(req.timeout_seconds, direct.timeout_seconds);
    assert!(matches!(empty().resolve(Some(empty())), Err(CliError::Cli("Missing job name"))));
    let mut bad = args();
    bad.schedule = Some("never".to_string());
    assert!(bad.resolve_checked(None).is_none());
}

#[test]
fn default_arguments_keep_names_and_reset_the_rest() {
    let d = args().default();
    assert!(d.file.is_none());
    assert_eq!(d.job_name, Some("test-job".to_string()));
    assert_eq!(d.args, None);
    assert_eq!(d.no_retry, Some(false));
    assert_eq!(d.priority, Some(1));
    assert_eq!(d.max_concurrency, Some(-1));
    assert_eq!(d.timeout_seconds, Some(7200));
    assert!(!d.dry_run);
}

#[test]
fn identifiers_prefer_the_uuid() {
    let id = 0x019c398e_4f39_79cd_b85f_a2ed4d79273fu128;
    let req = JobIdentifierArgs { job_id: Some(id), job_name: Some("n".to_string()) }.into_request();
    assert!(matches!(req.job_identifier, Some(JobIdentifier::JobId(s)) if s == "019c398e-4f39-79cd-b85f-a2ed4d79273f"));
    let req = JobIdentifierArgs { job_id: None, job_name: Some("n".to_string()) }.into_request();
    assert!(matches!(req.job_identifier, Some(JobIdentifier::JobName(s)) if s == "n"));
    assert!(JobIdentifierArgs { job_id: None, job_name: None }.into_request().job_identifier.is_none());
    let q = QueueIdentifierArgs { job_id: None, job_name: Some("q".to_string()) }.into_request();
    assert!(matches!(q.queue_identifier, Some(QueueIdentifier::QueueName(s)) if s == "q"));
    let q = QueueIdentifierArgs { job_id: Some(1), job_name: None }.into_request();
    assert!(matches!(q.queue_identifier, Some(QueueIdentifier::QueueId(s)) if s == "00000000-0000-0000-0000-000000000001"));
    assert_eq!(JobIdentifierArgs { job_id: Some(1), job_name: None }.to_string(), "id: 00000000-0000-0000-0000-000000000001");
    assert_eq!(QueueIdentifierArgs { job_id: None, job_name: Some("x".to_string()) }.to_string(), "name: x");
    assert_eq!(JobIdentifierArgs { job_id: None, job_name: None }.to_string(), "unspecified identifier");
}

#[test]
fn listed_items_show_their_time() {
    let q = QueueDisplay::from_item(&QueueItem {
        queue_name: "default".to_string(),
        status: "ACTIVE".to_string(),
        capacity: 3,
        used_capacity: 1,
        created_at: Some(Timestamp { seconds: 0, nanos: 0 }),
    });
    assert_eq!(q.created_at, "1970-01-01 00:00:00");
    let q = QueueDisplay::from_item(&QueueItem {
        queue_name: "default".to_string(),
        status: "ACTIVE".to_string(),
        capacity: 3,
        used_capacity: 1,
        created_at: None,
    });
    assert_eq!(q.created_at, "N/A");
    let j = JobDisplay::from_item(JobItem {
        job_id: "id".to_string(),
        job_name: "n".to_string(),
        status: "ACTIVE".to_string(),
        schedule: "* * * * *".to_string(),
        image_name: "a/b".to_string(),
        queue_name: "q".to_string(),
        max_retries: 0,
        priority: 1,
        no_retry: true,
        next_occurrence_at: Some(Timestamp { seconds: i64::MAX, nanos: 0 }),
    });
    assert_eq!(j.next_occurrence_at, "Invalid Date");
    assert!(j.no_retry);
    assert_eq!(j.queue_name, "q");
}

#[test]
fn cli_configuration_falls_back_to_defaults() {
    let c = Config::new("http://x:1".to_string(), 10);
    assert_eq!(c.scheduler_grpc_url(), "http://x:1");
    let c = c.with_scheduler_grpc_url(None).with_request_timeout_ms(None);
    assert_eq!(c.scheduler_grpc_url(), SCHEDULER_GRPC_URL);
    assert_eq!(c.request_timeout_ms(), REQUEST_TIMEOUT_MS);
    let c = c.with_scheduler_grpc_url(Some("http://y".to_string())).with_request_timeout_ms(Some(7));
    assert_eq!(c.scheduler_grpc_url(), "http://y");
    assert_eq!(c.request_timeout_ms(), 7);
}

#[test]
fn times_are_shown_in_calendar_form() {
    assert_eq!(display_time(&Some(Timestamp { seconds: 1704110400, nanos: 0 })), "2024-01-01 12:00:00");
    assert_eq!(display_time(&Some(Timestamp { seconds: 0, nanos: 2_000_000_000 })), "Invalid Date");
    assert_eq!(display_time(&None), "N/A");
}
