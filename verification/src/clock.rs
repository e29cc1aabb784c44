//! Instants on the UTC time line and the freshness window measured in weeks.

use crate::text::text_of;
use vstd::prelude::*;

verus! {

/// Nanoseconds in one second.
pub const NANOS_PER_SECOND: u32 = 1_000_000_000;

/// Seconds in one week.
pub const SECONDS_PER_WEEK: u32 = 604_800;

/// An instant in UTC: whole seconds since 1970-01-01 00:00:00, leap seconds
/// not counted, and the nanoseconds that follow the last whole second. The
/// instant is the sum of the two, whatever `nanos` holds: a billion or more,
/// which stands for a leap second, is counted as that many nanoseconds.
#[derive(Clone, Copy, Debug, PartialEq, Eq, Structural)]
pub struct Timestamp {
    pub secs: i64,
    pub nanos: u32,
}

impl Timestamp {
    /// The instant as one number: nanoseconds since the epoch.
    pub open spec fn as_nanos(self) -> int {
        self.secs * (NANOS_PER_SECOND as int) + self.nanos
    }
}

/// Length of a window of `weeks` weeks, in nanoseconds.
pub open spec fn window_nanos(weeks: int) -> int {
    weeks * (SECONDS_PER_WEEK as int) * (NANOS_PER_SECOND as int)
}

/// Whether something that happened at `then` is, at `now`, less than `weeks`
/// weeks old. The window is open at its far end: an age of exactly `weeks`
/// weeks is outside.
pub open spec fn is_within(then: Timestamp, now: Timestamp, weeks: int) -> bool {
    now.as_nanos() - then.as_nanos() < window_nanos(weeks)
}

impl Timestamp {
    /// Nanoseconds from this instant to `later`; negative if `later` is in
    /// fact earlier.
    pub fn nanos_until(&self, later: Timestamp) -> (elapsed: i128)
        ensures
            elapsed == later.as_nanos() - self.as_nanos(),
    {
        let whole: i128 = later.secs as i128 - self.secs as i128;
        let part: i128 = later.nanos as i128 - self.nanos as i128;
        whole * 1_000_000_000 + part
    }
}

/// Length of a window of `weeks` weeks, in nanoseconds.
pub fn window_length(weeks: i64) -> (nanos: i128)
    ensures
        nanos == window_nanos(weeks as int),
{
    let seconds: i128 = (weeks as i128) * 604_800;
    seconds * 1_000_000_000
}

/// Reads the system clock through `chrono::Utc::now` and hands the reading
/// over as seconds and nanoseconds since the epoch. Nothing is claimed of the
/// reading: it differs from call to call. The clock must not be set before
/// 1970, or chrono panics.
#[verifier::external_body]
pub(crate) fn utc_now() -> (now: Timestamp) {
    let now = chrono::Utc::now();
    Timestamp { secs: now.timestamp(), nanos: now.timestamp_subsec_nanos() }
}

/// The text that chrono's `Display` gives for the UTC date and time that
/// lies `secs` seconds and `nanos` nanoseconds after the epoch, or `None`
/// where chrono has no date for that pair.
pub uninterp spec fn utc_text(secs: i64, nanos: u32) -> Option<Seq<char>>;

/// `chrono::DateTime::from_timestamp` on the two parts of `at`, then
/// `to_string` on the date it made. The claim is only that the outcome is the
/// same for the same instant, whenever and wherever it is asked for: the text
/// names the date, the time of day and the zone `UTC`, none of which depends
/// on the machine.
#[verifier::external_body]
pub(crate) fn format_utc(at: Timestamp) -> (text: Option<String>)
    ensures
        text_of(text) == utc_text(at.secs, at.nanos),
{
    match chrono::DateTime::from_timestamp(at.secs, at.nanos) {
        Some(moment) => Some(moment.to_string()),
        None => None,
    }
}

} // verus!
