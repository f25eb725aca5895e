//! Queue commands: how a queue is named in a request, and how a listed
//! queue is shown.

use crate::domain::id::{uuid_text, QueueId};
use crate::proto::{QueueIdentifier, QueueIdentifierRequest, QueueItem};
use crate::time::{display_time, display_time_text};
use vstd::prelude::*;

verus! {

/// How a queue is named on the command line: by UUID or by name.
#[derive(Debug)]
pub struct QueueIdentifierArgs {
    /// UUID of the queue
    pub job_id: Option<u128>,
    /// Name of the queue
    pub job_name: Option<String>,
}

/// The identifier of a request, as (is a UUID, text).
pub open spec fn queue_identifier_view(r: QueueIdentifierRequest) -> Option<(bool, Seq<char>)> {
    match r.queue_identifier {
        Some(QueueIdentifier::QueueId(s)) => Some((true, s@)),
        Some(QueueIdentifier::QueueName(s)) => Some((false, s@)),
        None => None,
    }
}

impl QueueIdentifierArgs {
    /// The request that names the queue: by its UUID when one is given, by
    /// its name otherwise.
    pub fn into_request(self) -> (r: QueueIdentifierRequest)
        ensures
            queue_identifier_view(r) == match self.job_id {
                Some(i) => Some((true, uuid_text(i))),
                None => match self.job_name {
                    Some(n) => Some((false, n@)),
                    None => None,
                },
            },
    {
        match self.job_id {
            Some(id) => QueueIdentifierRequest {
                queue_identifier: Some(QueueIdentifier::QueueId(QueueId::new(id).to_string())),
            },
            None => match self.job_name {
                Some(name) => QueueIdentifierRequest { queue_identifier: Some(QueueIdentifier::QueueName(name)) },
                None => QueueIdentifierRequest { queue_identifier: None },
            },
        }
    }

    /// How the identifier is shown: `id: <uuid>`, `name: <name>`, or
    /// `unspecified identifier`.
    pub fn to_string(&self) -> (s: String)
        ensures
            s@ == match self.job_id {
                Some(i) => "id: "@ + uuid_text(i),
                None => match self.job_name {
                    Some(n) => "name: "@ + n@,
                    None => "unspecified identifier"@,
                },
            },
    {
        match self.job_id {
            Some(id) => {
                let text = QueueId::new(id).to_string();
                String::from_str("id: ").concat(text.as_str())
            },
            None => match &self.job_name {
                Some(n) => String::from_str("name: ").concat(n.as_str()),
                None => String::from_str("unspecified identifier"),
            },
        }
    }
}

/// Commands for managing queues.
#[derive(Debug, Clone, Copy, PartialEq, Eq, Structural)]
pub enum QueueSubcommand {
    /// Lists all queues
    List,
}

/// A listed queue, as shown in a table.
#[derive(Debug)]
pub struct QueueDisplay {
    pub queue_name: String,
    pub status: String,
    pub capacity: i32,
    pub used_capacity: i32,
    pub created_at: String,
}

impl QueueDisplay {
    /// The row shown for a listed queue.
    pub fn from_item(item: &QueueItem) -> (r: QueueDisplay)
        ensures
            r.queue_name@ == item.queue_name@,
            r.status@ == item.status@,
            r.capacity == item.capacity,
            r.used_capacity == item.used_capacity,
            r.created_at@ == display_time_text(item.created_at),
    {
        QueueDisplay {
            queue_name: item.queue_name.clone(),
            status: item.status.clone(),
            capacity: item.capacity,
            used_capacity: item.used_capacity,
            created_at: display_time(&item.created_at),
        }
    }
}

} // verus!
