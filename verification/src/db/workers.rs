//! Workers: the machines that execute jobs.

use crate::domain::id::{QueueId, WorkerId};
use crate::time::UtcTime;
use vstd::prelude::*;

verus! {

/// The database identifier of a worker.
#[derive(Debug, Clone, Copy, PartialEq, Eq, Structural)]
pub struct DbWorkerId(pub u128);

impl From<u128> for DbWorkerId {
    fn from(value: u128) -> (r: Self) {
        DbWorkerId(value)
    }
}

impl vstd::std_specs::convert::FromSpecImpl<u128> for DbWorkerId {
    open spec fn obeys_from_spec() -> bool {
        true
    }

    open spec fn from_spec(v: u128) -> DbWorkerId {
        DbWorkerId(v)
    }
}

impl From<DbWorkerId> for WorkerId {
    fn from(value: DbWorkerId) -> (r: Self) {
        WorkerId::new(value.0)
    }
}

impl vstd::std_specs::convert::FromSpecImpl<DbWorkerId> for WorkerId {
    open spec fn obeys_from_spec() -> bool {
        true
    }

    open spec fn from_spec(v: DbWorkerId) -> WorkerId {
        WorkerId(v.0)
    }
}

impl From<WorkerId> for DbWorkerId {
    fn from(value: WorkerId) -> (r: Self) {
        DbWorkerId(value.inner())
    }
}

impl vstd::std_specs::convert::FromSpecImpl<WorkerId> for DbWorkerId {
    open spec fn obeys_from_spec() -> bool {
        true
    }

    open spec fn from_spec(v: WorkerId) -> DbWorkerId {
        DbWorkerId(v.0)
    }
}

impl<'a> From<&'a WorkerId> for DbWorkerId {
    fn from(value: &'a WorkerId) -> (r: Self) {
        DbWorkerId(value.inner())
    }
}

impl<'a> vstd::std_specs::convert::FromSpecImpl<&'a WorkerId> for DbWorkerId {
    open spec fn obeys_from_spec() -> bool {
        true
    }

    open spec fn from_spec(v: &'a WorkerId) -> DbWorkerId {
        DbWorkerId(v.0)
    }
}

/// The state of a worker machine.
#[derive(Debug, Clone, Copy, PartialEq, Eq, Structural)]
pub enum WorkerStatus {
    Starting,
    Alive,
    Terminated,
    Terminating,
    Stale,
}

/// The text of a worker status.
pub open spec fn worker_status_text(s: WorkerStatus) -> Seq<char> {
    match s {
        WorkerStatus::Starting => "STARTING"@,
        WorkerStatus::Alive => "ALIVE"@,
        WorkerStatus::Terminated => "TERMINATED"@,
        WorkerStatus::Terminating => "TERMINATING"@,
        WorkerStatus::Stale => "STALE"@,
    }
}

/// The worker status that a text names, if any.
pub open spec fn worker_status_from_text(t: Seq<char>) -> Option<WorkerStatus> {
    if t == "STARTING"@ {
        Some(WorkerStatus::Starting)
    } else if t == "ALIVE"@ {
        Some(WorkerStatus::Alive)
    } else if t == "TERMINATED"@ {
        Some(WorkerStatus::Terminated)
    } else if t == "TERMINATING"@ {
        Some(WorkerStatus::Terminating)
    } else if t == "STALE"@ {
        Some(WorkerStatus::Stale)
    } else {
        None
    }
}

impl WorkerStatus {
    /// The text of the status.
    pub fn to_string(&self) -> (r: String)
        ensures
            r@ == worker_status_text(*self),
    {
        match self {
            WorkerStatus::Starting => String::from_str("STARTING"),
            WorkerStatus::Alive => String::from_str("ALIVE"),
            WorkerStatus::Terminated => String::from_str("TERMINATED"),
            WorkerStatus::Terminating => String::from_str("TERMINATING"),
            WorkerStatus::Stale => String::from_str("STALE"),
        }
    }

    /// Reads a status from its text.
    pub fn from_str(s: &str) -> (r: Result<Self, String>)
        ensures
            worker_status_from_text(s@) matches Some(st) ==> r == Ok::<WorkerStatus, String>(st),
            worker_status_from_text(s@) is None ==> (r matches Err(e) && e@ == "VM status not understood"@),
    {
        if crate::text::str_eq(s, "STARTING") {
            Ok(WorkerStatus::Starting)
        } else if crate::text::str_eq(s, "ALIVE") {
            Ok(WorkerStatus::Alive)
        } else if crate::text::str_eq(s, "TERMINATED") {
            Ok(WorkerStatus::Terminated)
        } else if crate::text::str_eq(s, "TERMINATING") {
            Ok(WorkerStatus::Terminating)
        } else if crate::text::str_eq(s, "STALE") {
            Ok(WorkerStatus::Stale)
        } else {
            Err(String::from_str("VM status not understood"))
        }
    }
}

/// Reading the text of a worker status gives the status back.
pub proof fn lemma_worker_status_text_roundtrip(s: WorkerStatus)
    ensures
        worker_status_from_text(worker_status_text(s)) == Some(s),
{
    reveal_strlit("STARTING");
    reveal_strlit("ALIVE");
    reveal_strlit("TERMINATED");
    reveal_strlit("TERMINATING");
    reveal_strlit("STALE");
    assert("STARTING"@[0] != "ALIVE"@[0]);
    assert("STARTING"@[0] != "TERMINATED"@[0]);
    assert("STARTING"@[0] != "TERMINATING"@[0]);
    assert("STARTING"@[3] != "STALE"@[3]);
    assert("ALIVE"@[0] != "TERMINATED"@[0]);
    assert("ALIVE"@[0] != "TERMINATING"@[0]);
    assert("ALIVE"@[0] != "STALE"@[0]);
    assert("TERMINATED"@.len() != "TERMINATING"@.len());
    assert("TERMINATED"@[0] != "STALE"@[0]);
    assert("TERMINATING"@[0] != "STALE"@[0]);
}

/// A worker as the database stores it.
pub struct WorkerRow {
    pub worker_id: DbWorkerId,
    pub queue_id: QueueId,
    pub status: WorkerStatus,
    pub epoch: i32,
    pub vpc_id: String,
    pub dns: String,
    pub private_ip: String,
    pub created_at: UtcTime,
}

} // verus!
