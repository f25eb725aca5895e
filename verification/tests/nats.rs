use repeatrs::bundles::{PgJobBundle, PgJobSchedulerBundle, PgQueueBundle};
use repeatrs::nats::config::Config;
use repeatrs::nats::error::NatsError;
use repeatrs::nats::jetstream::{
    outgoing_message, JetstreamContextBuilder, StreamDiscard, StreamRetention, SOURCE_APP,
};
use repeatrs::nats::nats_config;

fn cfg(address: &str, prefix: &str, consumers: i32, bytes: i64, messages: i64) -> Config {
    Config::new(address.to_string(), prefix.to_string(), consumers, bytes, messages, "dev".to_string(), 30)
}

#[test]
fn nats_defaults() {
    let c = Config::default();
    assert_eq!(c.address(), "127.0.0.1:4222");
    assert_eq!(c.job_queues_prefix(), "job_queues");
    assert_eq!(c.max_consumers(), 10);
    assert_eq!(c.max_bytes(), 1024 * 1024);
    assert_eq!(c.max_messages(), 1000000);
    assert_eq!(c.environment(), "DEV");
    assert_eq!(c.duplicate_window_seconds(), 120);
}

#[test]
fn a_valid_configuration_loads() {
    let c = Config::load(cfg("nats://example:4222", "jobs", 1, 1, 1)).ok().unwrap();
    assert_eq!(c.job_queues_prefix(), "jobs");
    assert_eq!(c.duplicate_window_seconds(), 30);
}

#[test]
fn invalid_configurations_are_refused_in_order() {
    assert!(matches!(Config::load(cfg("http://example", "jobs", 1, 1, 1)), Err(NatsError::InvalidAddress(_))));
    assert!(matches!(Config::load(cfg("localhost:4222", "", 0, 0, 0)), Err(NatsError::Internal(m)) if m == "Prefix cannot be empty"));
    assert!(matches!(Config::load(cfg("localhost:4222", "p", 0, 1, 1)), Err(NatsError::Internal(m)) if m == "Configuration parameter 'max_consumers' must be greater than zero."));
    assert!(matches!(Config::load(cfg("localhost:4222", "p", 1, 0, 1)), Err(NatsError::Internal(m)) if m == "Configuration parameter 'max_bytes' must be greater than zero."));
    assert!(matches!(Config::load(cfg("localhost:4222", "p", 1, 1, -1)), Err(NatsError::Internal(m)) if m == "Configuration parameter 'max_messages' must be greater than zero."));
}

#[test]
fn an_unusable_configuration_falls_back_to_the_default() {
    assert_eq!(nats_config(None).address(), "127.0.0.1:4222");
    assert_eq!(nats_config(Some(cfg("localhost", "p", 0, 1, 1))).max_consumers(), 10);
    assert_eq!(nats_config(Some(cfg("localhost", "p", 3, 1, 1))).max_consumers(), 3);
}

#[test]
fn the_stream_subject_uses_the_environment_in_upper_case() {
    let b = JetstreamContextBuilder::with_config(cfg("localhost", "job_queues", 1, 1, 1)).ok().unwrap();
    assert_eq!(b.stream_subject(), "DEV.job_queues.>");
    assert_eq!(b.stream_name(), "job_queues");
    assert!(b.credentials().is_none());
    let b = b.with_user_and_password("u".to_string(), "p".to_string());
    assert_eq!(b.credentials(), Some(("u".to_string(), "p".to_string())));
    assert_eq!(b.configuration().environment(), "dev");
}

#[test]
fn bundles_are_plain_handles() {
    assert_eq!(PgJobBundle::new(), PgJobBundle::default());
    assert_eq!(PgQueueBundle::new(), PgQueueBundle::default());
    assert_eq!(PgJobSchedulerBundle::new(), PgJobSchedulerBundle::default());
}

#[test]
fn a_message_carries_its_subject_id_and_source() {
    let m = outgoing_message("DEV", "job_queues", "default", 0x67e5504410b1426f9247bb680e5fe0c8);
    assert_eq!(m.subject, "DEV.job_queues.default");
    assert_eq!(m.message_id, "67e55044-10b1-426f-9247-bb680e5fe0c8");
    assert_eq!(m.source_app, "repeatrs");
    assert_eq!(SOURCE_APP, "repeatrs");
}

#[test]
fn the_stream_is_a_work_queue_with_the_configured_limits() {
    let b = JetstreamContextBuilder::with_config(cfg("localhost", "jobs", 4, 2048, 99)).ok().unwrap();
    let s = b.stream_settings();
    assert_eq!(s.name, "jobs");
    assert_eq!(s.subjects, vec!["DEV.jobs.>".to_string()]);
    assert_eq!(s.description, "job queues");
    assert_eq!(s.retention, StreamRetention::WorkQueue);
    assert!(s.allow_direct);
    assert_eq!(s.max_consumers, 4);
    assert_eq!(s.max_bytes, 2048);
    assert_eq!(s.max_messages, 99);
    assert_eq!(s.discard, StreamDiscard::New);
    assert_eq!(s.duplicate_window_seconds, 30);
}
