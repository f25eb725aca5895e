//! Identifiers of the entities: each wraps the 128-bit value of a UUID.

use vstd::prelude::*;

verus! {

/// The lowercase hexadecimal digits, by value.
pub open spec fn hex_digits() -> Seq<char> {
    seq!['0', '1', '2', '3', '4', '5', '6', '7', '8', '9', 'a', 'b', 'c', 'd', 'e', 'f']
}

/// The 32 hexadecimal digits of `bits`, most significant first.
pub open spec fn hex_text(bits: u128) -> Seq<char> {
    Seq::new(32, |k: int| hex_digits()[((bits >> ((124 - 4 * k) as u128)) & 0xfu128) as int])
}

/// The hyphenated text that the `uuid` crate writes for the UUID with the
/// value `bits`: its 32 lowercase hexadecimal digits, most significant
/// first, in groups of 8, 4, 4, 4 and 12 joined by `-`.
pub open spec fn uuid_text(bits: u128) -> Seq<char> {
    let h = hex_text(bits);
    h.subrange(0, 8) + seq!['-'] + h.subrange(8, 12) + seq!['-'] + h.subrange(12, 16) + seq!['-']
        + h.subrange(16, 20) + seq!['-'] + h.subrange(20, 32)
}

/// The value of the UUID that the `uuid` crate reads from `text`, if it
/// accepts the text.
pub uninterp spec fn uuid_parse(text: Seq<char>) -> Option<u128>;

/// Calls `Uuid::from_u128(bits).to_string()`: the hyphenated lowercase form.
#[verifier::external_body]
pub(crate) fn format_uuid(bits: u128) -> (s: String)
    ensures
        s@ == uuid_text(bits),
{
    uuid::Uuid::from_u128(bits).to_string()
}

/// Calls `Uuid::from_str(text)` and returns the value of the UUID read.
#[verifier::external_body]
pub(crate) fn parse_uuid(text: &str) -> (r: Result<u128, uuid::Error>)
    ensures
        r is Ok <==> uuid_parse(text@) is Some,
        r matches Ok(bits) ==> uuid_parse(text@) == Some(bits),
{
    match <uuid::Uuid as std::str::FromStr>::from_str(text) {
        Ok(u) => Ok(u.as_u128()),
        Err(e) => Err(e),
    }
}

/// The identifiers of the entities.
pub trait IsId: Copy + PartialEq {}

/// Identifier of a job.
#[derive(Debug, Clone, Copy, PartialEq, Eq, Structural)]
pub struct JobId(pub u128);

impl IsId for JobId {}

impl From<u128> for JobId {
    fn from(value: u128) -> (r: Self) {
        JobId(value)
    }
}

impl vstd::std_specs::convert::FromSpecImpl<u128> for JobId {
    open spec fn obeys_from_spec() -> bool {
        true
    }

    open spec fn from_spec(v: u128) -> JobId {
        JobId(v)
    }
}

impl From<JobId> for u128 {
    fn from(value: JobId) -> (r: Self) {
        value.0
    }
}

impl vstd::std_specs::convert::FromSpecImpl<JobId> for u128 {
    open spec fn obeys_from_spec() -> bool {
        true
    }

    open spec fn from_spec(v: JobId) -> u128 {
        v.0
    }
}

impl JobId {
    /// The identifier with the UUID value `id`.
    pub fn new(id: u128) -> (r: Self)
        ensures
            r.0 == id,
    {
        JobId(id)
    }

    /// The UUID value of the identifier.
    pub fn inner(self) -> (r: u128)
        ensures
            r == self.0,
    {
        self.0
    }

    /// The hyphenated text of the identifier.
    pub fn to_string(&self) -> (s: String)
        ensures
            s@ == uuid_text(self.0),
    {
        format_uuid(self.0)
    }

    /// Reads an identifier from UUID text.
    pub fn from_str(s: &str) -> (r: Result<Self, uuid::Error>)
        ensures
            r is Ok <==> uuid_parse(s@) is Some,
            r matches Ok(id) ==> uuid_parse(s@) == Some(id.0),
    {
        match parse_uuid(s) {
            Ok(bits) => Ok(JobId(bits)),
            Err(e) => Err(e),
        }
    }
}

/// Identifier of a queue.
#[derive(Debug, Clone, Copy, PartialEq, Eq, Structural)]
pub struct QueueId(pub u128);

impl IsId for QueueId {}

impl From<u128> for QueueId {
    fn from(value: u128) -> (r: Self) {
        QueueId(value)
    }
}

impl vstd::std_specs::convert::FromSpecImpl<u128> for QueueId {
    open spec fn obeys_from_spec() -> bool {
        true
    }

    open spec fn from_spec(v: u128) -> QueueId {
        QueueId(v)
    }
}

impl From<QueueId> for u128 {
    fn from(value: QueueId) -> (r: Self) {
        value.0
    }
}

impl vstd::std_specs::convert::FromSpecImpl<QueueId> for u128 {
    open spec fn obeys_from_spec() -> bool {
        true
    }

    open spec fn from_spec(v: QueueId) -> u128 {
        v.0
    }
}

impl QueueId {
    /// The identifier with the UUID value `id`.
    pub fn new(id: u128) -> (r: Self)
        ensures
            r.0 == id,
    {
        QueueId(id)
    }

    /// The UUID value of the identifier.
    pub fn inner(self) -> (r: u128)
        ensures
            r == self.0,
    {
        self.0
    }

    /// The hyphenated text of the identifier.
    pub fn to_string(&self) -> (s: String)
        ensures
            s@ == uuid_text(self.0),
    {
        format_uuid(self.0)
    }

    /// Reads an identifier from UUID text.
    pub fn from_str(s: &str) -> (r: Result<Self, uuid::Error>)
        ensures
            r is Ok <==> uuid_parse(s@) is Some,
            r matches Ok(id) ==> uuid_parse(s@) == Some(id.0),
    {
        match parse_uuid(s) {
            Ok(bits) => Ok(QueueId(bits)),
            Err(e) => Err(e),
        }
    }
}

/// Identifier of a worker.
#[derive(Debug, Clone, Copy, PartialEq, Eq, Structural)]
pub struct WorkerId(pub u128);

impl IsId for WorkerId {}

impl From<u128> for WorkerId {
    fn from(value: u128) -> (r: Self) {
        WorkerId(value)
    }
}

impl vstd::std_specs::convert::FromSpecImpl<u128> for WorkerId {
    open spec fn obeys_from_spec() -> bool {
        true
    }

    open spec fn from_spec(v: u128) -> WorkerId {
        WorkerId(v)
    }
}

impl From<WorkerId> for u128 {
    fn from(value: WorkerId) -> (r: Self) {
        value.0
    }
}

impl vstd::std_specs::convert::FromSpecImpl<WorkerId> for u128 {
    open spec fn obeys_from_spec() -> bool {
        true
    }

    open spec fn from_spec(v: WorkerId) -> u128 {
        v.0
    }
}

impl WorkerId {
    /// The identifier with the UUID value `id`.
    pub fn new(id: u128) -> (r: Self)
        ensures
            r.0 == id,
    {
        WorkerId(id)
    }

    /// The UUID value of the identifier.
    pub fn inner(self) -> (r: u128)
        ensures
            r == self.0,
    {
        self.0
    }

    /// The hyphenated text of the identifier.
    pub fn to_string(&self) -> (s: String)
        ensures
            s@ == uuid_text(self.0),
    {
        format_uuid(self.0)
    }

    /// Reads an identifier from UUID text.
    pub fn from_str(s: &str) -> (r: Result<Self, uuid::Error>)
        ensures
            r is Ok <==> uuid_parse(s@) is Some,
            r matches Ok(id) ==> uuid_parse(s@) == Some(id.0),
    {
        match parse_uuid(s) {
            Ok(bits) => Ok(WorkerId(bits)),
            Err(e) => Err(e),
        }
    }
}

/// Identifier of a job run.
#[derive(Debug, Clone, Copy, PartialEq, Eq, Structural)]
pub struct JobRunId(pub u128);

impl IsId for JobRunId {}

impl From<u128> for JobRunId {
    fn from(value: u128) -> (r: Self) {
        JobRunId(value)
    }
}

impl vstd::std_specs::convert::FromSpecImpl<u128> for JobRunId {
    open spec fn obeys_from_spec() -> bool {
        true
    }

    open spec fn from_spec(v: u128) -> JobRunId {
        JobRunId(v)
    }
}

impl From<JobRunId> for u128 {
    fn from(value: JobRunId) -> (r: Self) {
        value.0
    }
}

impl vstd::std_specs::convert::FromSpecImpl<JobRunId> for u128 {
    open spec fn obeys_from_spec() -> bool {
        true
    }

    open spec fn from_spec(v: JobRunId) -> u128 {
        v.0
    }
}

impl JobRunId {
    /// The identifier with the UUID value `id`.
    pub fn new(id: u128) -> (r: Self)
        ensures
            r.0 == id,
    {
        JobRunId(id)
    }

    /// The UUID value of the identifier.
    pub fn inner(self) -> (r: u128)
        ensures
            r == self.0,
    {
        self.0
    }

    /// The hyphenated text of the identifier.
    pub fn to_string(&self) -> (s: String)
        ensures
            s@ == uuid_text(self.0),
    {
        format_uuid(self.0)
    }

    /// Reads an identifier from UUID text.
    pub fn from_str(s: &str) -> (r: Result<Self, uuid::Error>)
        ensures
            r is Ok <==> uuid_parse(s@) is Some,
            r matches Ok(id) ==> uuid_parse(s@) == Some(id.0),
    {
        match parse_uuid(s) {
            Ok(bits) => Ok(JobRunId(bits)),
            Err(e) => Err(e),
        }
    }
}

} // verus!
