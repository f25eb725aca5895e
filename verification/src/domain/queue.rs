//! Queues: containers of the jobs waiting to be executed.

use crate::domain::id::QueueId;
use crate::proto::QueueItem;
use crate::time::{Timestamp, UtcTime};
use vstd::prelude::*;

verus! {

/// Status of the queue. `ACTIVE` queues are eligible to receive new elements
/// while `INACTIVE` are not.
#[derive(Debug, Clone, Copy, PartialEq, Eq, Structural)]
pub enum QueueStatus {
    /// The queue accepts new elements
    Active,
    /// The queue does not accept new elements
    Inactive,
}

/// The text of a queue status.
pub open spec fn queue_status_text(s: QueueStatus) -> Seq<char> {
    match s {
        QueueStatus::Active => "ACTIVE"@,
        QueueStatus::Inactive => "INACTIVE"@,
    }
}

/// The queue status that a text names, if any.
pub open spec fn queue_status_from_text(t: Seq<char>) -> Option<QueueStatus> {
    if t == "ACTIVE"@ {
        Some(QueueStatus::Active)
    } else if t == "INACTIVE"@ {
        Some(QueueStatus::Inactive)
    } else {
        None
    }
}

impl QueueStatus {
    /// The status of a new queue: `Active`.
    pub fn default() -> (r: Self)
        ensures
            r == QueueStatus::Active,
    {
        QueueStatus::Active
    }

    /// The text of the status: `ACTIVE` or `INACTIVE`.
    pub fn to_string(&self) -> (r: String)
        ensures
            r@ == queue_status_text(*self),
    {
        match self {
            QueueStatus::Active => String::from_str("ACTIVE"),
            QueueStatus::Inactive => String::from_str("INACTIVE"),
        }
    }

    /// Reads a status from its text.
    pub fn from_str(s: &str) -> (r: Result<Self, String>)
        ensures
            queue_status_from_text(s@) matches Some(st) ==> r == Ok::<QueueStatus, String>(st),
            queue_status_from_text(s@) is None ==> (r matches Err(e) && e@ == "Job status not understood."@),
    {
        if crate::text::str_eq(s, "ACTIVE") {
            Ok(QueueStatus::Active)
        } else if crate::text::str_eq(s, "INACTIVE") {
            Ok(QueueStatus::Inactive)
        } else {
            Err(String::from_str("Job status not understood."))
        }
    }
}

/// Whether a queue in `status` takes new jobs: an active queue does, an
/// inactive one refuses them.
pub fn queue_accepts_jobs(status: QueueStatus) -> (r: bool)
    ensures
        r <==> status == QueueStatus::Active,
{
    match status {
        QueueStatus::Active => true,
        QueueStatus::Inactive => false,
    }
}

/// Reading the text of a queue status gives the status back.
pub proof fn lemma_queue_status_text_roundtrip(s: QueueStatus)
    ensures
        queue_status_from_text(queue_status_text(s)) == Some(s),
{
    reveal_strlit("ACTIVE");
    reveal_strlit("INACTIVE");
    assert("ACTIVE"@.len() != "INACTIVE"@.len());
}

/// A queue of jobs.
pub struct Queue {
    /// Unique identifier for this queue
    pub queue_id: QueueId,
    /// The name of this queue
    pub queue_name: String,
    /// Status of the queue
    pub status: QueueStatus,
    /// Maximum number of jobs for this queue
    pub capacity: i32,
    /// Current number of jobs in this queue
    pub used_capacity: i32,
    /// Timestamp of queue creation
    pub created_at: UtcTime,
    /// Time when the queue was last updated
    pub updated_at: UtcTime,
}

impl Queue {
    /// The queue as listed to a client.
    pub fn to_queue_item(&self) -> (r: QueueItem)
        ensures
            r.queue_name@ == self.queue_name@,
            r.status@ == queue_status_text(self.status),
            r.capacity == self.capacity,
            r.used_capacity == self.used_capacity,
            r.created_at == Some(Timestamp { seconds: self.created_at.seconds, nanos: self.created_at.nanos as i32 }),
    {
        let created_at = Timestamp { seconds: self.created_at.seconds, nanos: self.created_at.nanos as i32 };
        QueueItem {
            queue_name: self.queue_name.clone(),
            status: self.status.to_string(),
            capacity: self.capacity,
            used_capacity: self.used_capacity,
            created_at: Some(created_at),
        }
    }
}

} // verus!
