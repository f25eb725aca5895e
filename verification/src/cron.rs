//! Cron schedules, parsed by the `croner` crate.

use crate::time::{chrono_has_time, has_time, UtcTime};
use vstd::prelude::*;

verus! {

/// Whether `croner` accepts `pattern` (`Cron::from_str` returns `Ok`).
pub uninterp spec fn cron_accepts(pattern: Seq<char>) -> bool;

/// The text that `croner` displays for the schedule parsed from `pattern`.
pub uninterp spec fn cron_text(pattern: Seq<char>) -> Seq<char>;

/// The time, as seconds and nanoseconds, that `croner` finds as the next
/// occurrence of the schedule parsed from `pattern` after the UTC time
/// `seconds`/`nanos` (or at it, when `inclusive`); `None` where it returns
/// an error.
pub uninterp spec fn cron_next_occurrence(pattern: Seq<char>, seconds: i64, nanos: u32, inclusive: bool) -> Option<(i64, u32)>;

/// A cron schedule together with the pattern it was parsed from.
pub struct CronSchedule {
    cron: croner::Cron,
    pattern: Ghost<Seq<char>>,
}

impl View for CronSchedule {
    type V = Seq<char>;

    /// The pattern the schedule was parsed from.
    closed spec fn view(&self) -> Seq<char> {
        self.pattern@
    }
}

/// Calls `croner::Cron::from_str(pattern)`; whether it succeeds is named.
#[verifier::external_body]
fn cron_from_str(pattern: &str) -> (r: Result<CronSchedule, croner::errors::CronError>)
    ensures
        r is Ok <==> cron_accepts(pattern@),
        r matches Ok(c) ==> c@ == pattern@,
{
    match <croner::Cron as std::str::FromStr>::from_str(pattern) {
        Ok(cron) => Ok(CronSchedule { cron, pattern: Ghost(pattern@) }),
        Err(e) => Err(e),
    }
}

/// Calls `Cron::to_string` (its `Display`) on the parsed schedule.
#[verifier::external_body]
fn cron_to_string(c: &CronSchedule) -> (r: String)
    ensures
        r@ == cron_text(c@),
{
    c.cron.to_string()
}

/// Calls `Cron::find_next_occurrence` from the UTC time `from`, which
/// `chrono` must have (else `DateTime::from_timestamp` gives none).
#[verifier::external_body]
fn cron_find_next(c: &CronSchedule, from: UtcTime, inclusive: bool) -> (r: Result<UtcTime, croner::errors::CronError>)
    requires
        chrono_has_time(from.seconds, from.nanos),
    ensures
        r is Ok <==> cron_next_occurrence(c@, from.seconds, from.nanos, inclusive) is Some,
        r matches Ok(t) ==> cron_next_occurrence(c@, from.seconds, from.nanos, inclusive) == Some((t.seconds, t.nanos)),
{
    let start = chrono::DateTime::from_timestamp(from.seconds, from.nanos).unwrap();
    match c.cron.find_next_occurrence(&start, inclusive) {
        Ok(t) => Ok(UtcTime { seconds: t.timestamp(), nanos: t.timestamp_subsec_nanos() }),
        Err(e) => Err(e),
    }
}

impl CronSchedule {
    /// The next time the schedule fires after `from` (or at it, when
    /// `inclusive`), as `croner` finds it.
    pub fn next_occurrence(&self, from: UtcTime, inclusive: bool) -> (r: Result<UtcTime, croner::errors::CronError>)
        requires
            chrono_has_time(from.seconds, from.nanos),
        ensures
            r is Ok <==> cron_next_occurrence(self@, from.seconds, from.nanos, inclusive) is Some,
            r matches Ok(t) ==> cron_next_occurrence(self@, from.seconds, from.nanos, inclusive) == Some(
                (t.seconds, t.nanos),
            ),
    {
        cron_find_next(self, from, inclusive)
    }

    /// The next time the schedule fires after `from` (or at it, when
    /// `inclusive`); `None` where `chrono` has no such time as `from`.
    pub fn next_occurrence_checked(&self, from: UtcTime, inclusive: bool) -> (r: Option<Result<UtcTime, croner::errors::CronError>>)
        ensures
            r is None <==> !chrono_has_time(from.seconds, from.nanos),
            r matches Some(res) ==> (res is Ok <==> cron_next_occurrence(self@, from.seconds, from.nanos, inclusive) is Some),
            r matches Some(Ok(t)) ==> cron_next_occurrence(self@, from.seconds, from.nanos, inclusive) == Some(
                (t.seconds, t.nanos),
            ),
    {
        if has_time(from.seconds, from.nanos) {
            Some(self.next_occurrence(from, inclusive))
        } else {
            None
        }
    }

    /// Parses a cron pattern.
    pub fn parse(pattern: &str) -> (r: Result<CronSchedule, croner::errors::CronError>)
        ensures
            r is Ok <==> cron_accepts(pattern@),
            r matches Ok(c) ==> c@ == pattern@,
    {
        cron_from_str(pattern)
    }

    /// The text of the schedule, as `croner` writes it.
    pub fn to_string(&self) -> (r: String)
        ensures
            r@ == cron_text(self@),
    {
        cron_to_string(self)
    }

    /// The schedule that `croner` parsed.
    pub closed spec fn parsed(&self) -> croner::Cron {
        self.cron
    }

    /// The schedule that `croner` parsed.
    pub fn cron(&self) -> (r: &croner::Cron)
        ensures
            *r == self.parsed(),
    {
        &self.cron
    }
}

} // verus!
