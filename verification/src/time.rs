//! Points in time as plain values, and their calendar text.

use vstd::prelude::*;

verus! {

/// A point in time, in UTC: whole seconds since the Unix epoch and the
/// nanoseconds past that second.
#[derive(Debug, Clone, Copy, PartialEq, Eq, Structural)]
pub struct UtcTime {
    /// Whole seconds since 1970-01-01T00:00:00Z.
    pub seconds: i64,
    /// Nanoseconds past `seconds`.
    pub nanos: u32,
}

/// A timestamp as the wire format carries it.
#[derive(Debug, Clone, Copy, PartialEq, Eq, Structural)]
pub struct Timestamp {
    /// Whole seconds since the Unix epoch.
    pub seconds: i64,
    /// Nanoseconds past `seconds`.
    pub nanos: i32,
}

/// The calendar format in which the library shows times.
pub const DISPLAY_TIME_FORMAT: &'static str = "%Y-%m-%d %H:%M:%S";

/// Whether `chrono::DateTime::from_timestamp(seconds, nanos)` gives a time
/// (it gives none for seconds out of its range or invalid nanoseconds).
pub uninterp spec fn chrono_has_time(seconds: i64, nanos: u32) -> bool;

/// The text that `chrono` writes, with the `strftime` format `fmt`, for the
/// UTC time `seconds`/`nanos`; `None` where `chrono` has no such time or
/// cannot write that format.
pub uninterp spec fn timestamp_text(seconds: i64, nanos: u32, fmt: Seq<char>) -> Option<Seq<char>>;

/// Calls `chrono::DateTime::from_timestamp(seconds, nanos)`.
#[verifier::external_body]
pub(crate) fn has_time(seconds: i64, nanos: u32) -> (r: bool)
    ensures
        r == chrono_has_time(seconds, nanos),
{
    chrono::DateTime::from_timestamp(seconds, nanos).is_some()
}

/// Calls `chrono::DateTime::from_timestamp(seconds, nanos)` and writes the
/// time it returns with `format(fmt)` (`DelayedFormat::write_to`); `None`
/// where `chrono` has no such time or the writing fails. The format
/// `%Y-%m-%d %H:%M:%S` holds only numeric items and literals, which write
/// for every time `chrono` has.
#[verifier::external_body]
pub(crate) fn format_timestamp(seconds: i64, nanos: u32, fmt: &str) -> (r: Option<String>)
    ensures
        r is None <==> timestamp_text(seconds, nanos, fmt@) is None,
        r matches Some(s) ==> timestamp_text(seconds, nanos, fmt@) == Some(s@),
        r is Some ==> chrono_has_time(seconds, nanos),
        fmt@ == "%Y-%m-%d %H:%M:%S"@ ==> (r is Some <==> chrono_has_time(seconds, nanos)),
{
    match chrono::DateTime::from_timestamp(seconds, nanos) {
        Some(dt) => {
            let mut text = String::new();
            match dt.format(fmt).write_to(&mut text) {
                Ok(()) => Some(text),
                Err(_) => None,
            }
        },
        None => None,
    }
}

/// Calls `chrono::Utc::now()` and gives its seconds and nanoseconds. Of the
/// time nothing is promised but that `chrono` has it (`from_timestamp` of
/// its own timestamp gives it back).
#[verifier::external_body]
pub(crate) fn utc_now() -> (r: UtcTime)
    ensures
        chrono_has_time(r.seconds, r.nanos),
{
    let now = chrono::Utc::now();
    UtcTime { seconds: now.timestamp(), nanos: now.timestamp_subsec_nanos() }
}

/// The text shown for an optional wire timestamp: its calendar time in
/// `DISPLAY_TIME_FORMAT` where `chrono` has that time, `Invalid Date` where
/// it has none, `N/A` without a timestamp.
pub open spec fn display_time_text(ts: Option<Timestamp>) -> Seq<char> {
    match ts {
        Some(t) => if chrono_has_time(t.seconds, t.nanos as u32) {
            timestamp_text(t.seconds, t.nanos as u32, DISPLAY_TIME_FORMAT@)->Some_0
        } else {
            "Invalid Date"@
        },
        None => "N/A"@,
    }
}

/// The text shown for an optional wire timestamp (see `display_time_text`).
pub fn display_time(ts: &Option<Timestamp>) -> (s: String)
    ensures
        s@ == display_time_text(*ts),
{
    match ts {
        Some(t) => match format_timestamp(t.seconds, t.nanos as u32, DISPLAY_TIME_FORMAT) {
            Some(s) => s,
            None => String::from_str("Invalid Date"),
        },
        None => String::from_str("N/A"),
    }
}

} // verus!
