//! Messages exchanged between the command line and the scheduler.

use crate::time::Timestamp;
use vstd::prelude::*;

verus! {

/// A job as listed to a client.
#[derive(Debug, Clone)]
pub struct JobItem {
    pub job_id: String,
    pub job_name: String,
    pub status: String,
    pub schedule: String,
    pub image_name: String,
    pub queue_name: String,
    pub max_retries: i32,
    pub priority: i32,
    pub no_retry: bool,
    pub next_occurrence_at: Option<Timestamp>,
}

/// A queue as listed to a client.
#[derive(Debug, Clone)]
pub struct QueueItem {
    pub queue_name: String,
    pub status: String,
    pub capacity: i32,
    pub used_capacity: i32,
    pub created_at: Option<Timestamp>,
}

/// A request to add a job.
#[derive(Debug, Clone)]
pub struct AddJobRequest {
    pub job_name: String,
    pub description: Option<String>,
    pub schedule: String,
    pub image_name: String,
    pub queue_name: String,
    pub no_retry: bool,
    pub options: Option<String>,
    pub command: Option<String>,
    pub args: Vec<String>,
    pub priority: i32,
    pub max_concurrency: i32,
    pub timeout_seconds: i32,
}

/// How a job is named in a request.
#[derive(Debug, Clone)]
pub enum JobIdentifier {
    JobId(String),
    JobName(String),
}

/// A request that names a job.
#[derive(Debug, Clone)]
pub struct JobIdentifierRequest {
    pub job_identifier: Option<JobIdentifier>,
}

/// How a queue is named in a request.
#[derive(Debug, Clone)]
pub enum QueueIdentifier {
    QueueId(String),
    QueueName(String),
}

/// A request that names a queue.
#[derive(Debug, Clone)]
pub struct QueueIdentifierRequest {
    pub queue_identifier: Option<QueueIdentifier>,
}

} // verus!
