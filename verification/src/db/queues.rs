//! Queues as the database stores them.

use crate::domain::id::QueueId;
use crate::domain::queue::{Queue, QueueStatus};
use crate::time::UtcTime;
use vstd::prelude::*;

verus! {

/// Access to the `queues` table.
#[derive(Clone)]
pub struct PgQueueRepository;

/// The database identifier of a queue.
#[derive(Debug, Clone, Copy, PartialEq, Eq, Structural)]
pub struct DbQueueId(pub u128);

impl DbQueueId {
    pub fn new(id: u128) -> (r: Self)
        ensures
            r.0 == id,
    {
        DbQueueId(id)
    }
}

impl From<u128> for DbQueueId {
    fn from(value: u128) -> (r: Self) {
        DbQueueId(value)
    }
}

impl vstd::std_specs::convert::FromSpecImpl<u128> for DbQueueId {
    open spec fn obeys_from_spec() -> bool {
        true
    }

    open spec fn from_spec(v: u128) -> DbQueueId {
        DbQueueId(v)
    }
}

impl From<DbQueueId> for QueueId {
    fn from(value: DbQueueId) -> (r: Self) {
        QueueId::new(value.0)
    }
}

impl vstd::std_specs::convert::FromSpecImpl<DbQueueId> for QueueId {
    open spec fn obeys_from_spec() -> bool {
        true
    }

    open spec fn from_spec(v: DbQueueId) -> QueueId {
        QueueId(v.0)
    }
}

impl From<QueueId> for DbQueueId {
    fn from(value: QueueId) -> (r: Self) {
        DbQueueId(value.inner())
    }
}

impl vstd::std_specs::convert::FromSpecImpl<QueueId> for DbQueueId {
    open spec fn obeys_from_spec() -> bool {
        true
    }

    open spec fn from_spec(v: QueueId) -> DbQueueId {
        DbQueueId(v.0)
    }
}

impl<'a> From<&'a QueueId> for DbQueueId {
    fn from(value: &'a QueueId) -> (r: Self) {
        DbQueueId(value.inner())
    }
}

impl<'a> vstd::std_specs::convert::FromSpecImpl<&'a QueueId> for DbQueueId {
    open spec fn obeys_from_spec() -> bool {
        true
    }

    open spec fn from_spec(v: &'a QueueId) -> DbQueueId {
        DbQueueId(v.0)
    }
}

/// The status of a queue in the database.
#[derive(Debug, Clone, Copy, PartialEq, Eq, Structural)]
pub enum DbQueueStatus {
    /// The queue accepts new elements
    Active,
    /// The queue does not accept new elements
    Inactive,
}

impl DbQueueStatus {
    /// The status of a new queue: `Active`.
    pub fn default() -> (r: Self)
        ensures
            r == DbQueueStatus::Active,
    {
        DbQueueStatus::Active
    }
}

/// The domain status of a stored queue status.
pub open spec fn queue_status_of(s: DbQueueStatus) -> QueueStatus {
    match s {
        DbQueueStatus::Active => QueueStatus::Active,
        DbQueueStatus::Inactive => QueueStatus::Inactive,
    }
}

impl From<DbQueueStatus> for QueueStatus {
    fn from(value: DbQueueStatus) -> (r: Self) {
        match value {
            DbQueueStatus::Active => QueueStatus::Active,
            DbQueueStatus::Inactive => QueueStatus::Inactive,
        }
    }
}

impl vstd::std_specs::convert::FromSpecImpl<DbQueueStatus> for QueueStatus {
    open spec fn obeys_from_spec() -> bool {
        true
    }

    open spec fn from_spec(v: DbQueueStatus) -> QueueStatus {
        queue_status_of(v)
    }
}

/// A queue as the database stores it.
#[derive(Debug)]
pub struct QueueRow {
    /// Unique identifier for this queue
    pub queue_id: DbQueueId,
    /// The name of this queue
    pub queue_name: String,
    /// Status of the queue
    pub status: DbQueueStatus,
    /// Maximum number of jobs for this queue
    pub capacity: i32,
    /// Current number of jobs in this queue
    pub used_capacity: i32,
    /// Timestamp of queue creation
    pub created_at: UtcTime,
    /// Time when the queue was last updated
    pub updated_at: UtcTime,
}

impl QueueRow {
    pub fn queue_name(&self) -> (r: &str)
        ensures
            r@ == self.queue_name@,
    {
        self.queue_name.as_str()
    }
}

/// The domain queue of a row: every field carried over, the identifier and
/// the status in their domain forms.
pub open spec fn queue_of_row(value: QueueRow) -> Queue {
    Queue {
        queue_id: QueueId(value.queue_id.0),
        queue_name: value.queue_name,
        status: queue_status_of(value.status),
        capacity: value.capacity,
        used_capacity: value.used_capacity,
        created_at: value.created_at,
        updated_at: value.updated_at,
    }
}

impl From<QueueRow> for Queue {
    fn from(value: QueueRow) -> (q: Queue) {
        Queue {
            queue_id: QueueId::from(value.queue_id),
            queue_name: value.queue_name,
            status: QueueStatus::from(value.status),
            capacity: value.capacity,
            used_capacity: value.used_capacity,
            created_at: value.created_at,
            updated_at: value.updated_at,
        }
    }
}

impl vstd::std_specs::convert::FromSpecImpl<QueueRow> for Queue {
    open spec fn obeys_from_spec() -> bool {
        true
    }

    open spec fn from_spec(v: QueueRow) -> Queue {
        queue_of_row(v)
    }
}

} // verus!
