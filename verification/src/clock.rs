//! Points in time as plain values, and their notation in the call history.

use vstd::prelude::*;

verus! {

/// A point in time: seconds since the Unix epoch, and nanoseconds after that
/// second.
#[derive(Debug, Clone, Copy, PartialEq, Eq, Structural)]
pub struct Moment {
    pub secs: i64,
    pub nanos: u32,
}

/// A reading of the local wall clock.
#[derive(Debug, Clone, Copy, PartialEq, Eq, Structural)]
pub struct LocalTime {
    pub at: Moment,
    /// Seconds by which local time is ahead of UTC.
    pub offset: i32,
    /// Number of the local calendar day.
    pub day: i32,
    /// Local hour, 0..=23.
    pub hour: u8,
}

// ---------------------------------------------------------------------------
// Durations
// ---------------------------------------------------------------------------

/// Nanoseconds from one point in time to another.
pub open spec fn nanos_between(start: Moment, end: Moment) -> int {
    (end.secs - start.secs) * 1_000_000_000 + (end.nanos - start.nanos)
}

/// Division that rounds toward zero.
pub open spec fn truncated_div(a: int, b: int) -> int {
    if a >= 0 {
        a / b
    } else {
        -((-a) / b)
    }
}

/// Whole seconds from one point in time to another.
pub open spec fn whole_seconds(start: Moment, end: Moment) -> int {
    truncated_div(nanos_between(start, end), 1_000_000_000)
}

/// Whole hours from one point in time to another.
pub open spec fn whole_hours(start: Moment, end: Moment) -> int {
    truncated_div(whole_seconds(start, end), 3600)
}

/// Whole seconds that have passed since `start`; none if it lies ahead. Spans
/// that an `i64` cannot hold count as the greatest one.
pub open spec fn elapsed_secs_spec(start: Moment, end: Moment) -> i64 {
    if whole_seconds(start, end) < 0 {
        0
    } else if whole_seconds(start, end) > i64::MAX {
        i64::MAX
    } else {
        whole_seconds(start, end) as i64
    }
}

fn toward_zero(a: i128, b: i128) -> (r: i128)
    requires
        b > 0,
        a > i128::MIN,
    ensures
        r == truncated_div(a as int, b as int),
{
    if a >= 0 {
        a / b
    } else {
        -((-a) / b)
    }
}

/// Whole seconds from `start` to `end`, negative if `end` lies before.
pub fn seconds_between(start: Moment, end: Moment) -> (r: i128)
    ensures
        r == whole_seconds(start, end),
{
    let secs: i128 = end.secs as i128 - start.secs as i128;
    let nanos: i128 = end.nanos as i128 - start.nanos as i128;
    toward_zero(secs * 1_000_000_000 + nanos, 1_000_000_000)
}

/// Whole hours from `start` to `end`, negative if `end` lies before.
pub fn hours_between(start: Moment, end: Moment) -> (r: i128)
    ensures
        r == whole_hours(start, end),
{
    toward_zero(seconds_between(start, end), 3600)
}

/// True if one point in time lies before another.
pub open spec fn earlier(a: Moment, b: Moment) -> bool {
    a.secs < b.secs || a.secs == b.secs && a.nanos < b.nanos
}

/// True if `a` lies before `b`.
pub fn is_before(a: Moment, b: Moment) -> (r: bool)
    ensures
        r == earlier(a, b),
{
    a.secs < b.secs || a.secs == b.secs && a.nanos < b.nanos
}

/// Whole seconds that have passed since `start`.
pub fn elapsed_secs(start: Moment, end: Moment) -> (r: i64)
    ensures
        r == elapsed_secs_spec(start, end),
{
    let d: i128 = seconds_between(start, end);
    if d < 0 {
        0
    } else if d > i64::MAX as i128 {
        i64::MAX
    } else {
        d as i64
    }
}

// ---------------------------------------------------------------------------
// Stored notation
// ---------------------------------------------------------------------------

/// What `DateTime::parse_from_rfc3339` of the `chrono` crate reads: the
/// timestamp and the sub-second nanoseconds, or nothing if it refuses the text.
pub uninterp spec fn rfc3339_reading(s: Seq<char>) -> Option<(i64, u32)>;

/// What `DateTime::to_rfc3339` of the `chrono` crate writes for a timestamp,
/// sub-second nanoseconds and an offset from UTC; nothing if there is no such
/// date and time or no such offset.
pub uninterp spec fn rfc3339_writing(secs: i64, nanos: u32, offset: i32) -> Option<Seq<char>>;

/// The points in time between the years 1 and 9999 that are not within a leap
/// second, with an offset of whole minutes and less than a day.
pub open spec fn is_ordinary_time(secs: i64, nanos: u32, offset: i32) -> bool {
    &&& -62_135_510_400 <= secs < 253_402_214_400
    &&& nanos < 1_000_000_000
    &&& -86_400 < offset < 86_400
    &&& offset as int % 60 == 0
}

/// `chrono::DateTime::parse_from_rfc3339`: reads a point in time.
#[verifier::external_body]
fn read_rfc3339(s: &str) -> (r: Option<(i64, u32)>)
    ensures
        r == rfc3339_reading(s@),
{
    match chrono::DateTime::parse_from_rfc3339(s) {
        Ok(dt) => Some((dt.timestamp(), dt.timestamp_subsec_nanos())),
        Err(_) => None,
    }
}

/// `chrono::DateTime::to_rfc3339`, on the point in time that
/// `FixedOffset::timestamp_opt` gives: writes it with its offset. For ordinary
/// times there is a notation, and it is read back as the same point in time.
#[verifier::external_body]
fn write_rfc3339(secs: i64, nanos: u32, offset: i32) -> (r: Option<String>)
    ensures
        match r {
            Some(s) => rfc3339_writing(secs, nanos, offset) == Some(s@),
            None => rfc3339_writing(secs, nanos, offset) is None,
        },
        is_ordinary_time(secs, nanos, offset) ==> r is Some && rfc3339_reading(r->Some_0@) == Some(
            (secs, nanos),
        ),
{
    let zone = chrono::FixedOffset::east_opt(offset)?;
    let time = chrono::TimeZone::timestamp_opt(&zone, secs, nanos).single()?;
    Some(time.to_rfc3339())
}

/// The point in time of a stored notation.
pub open spec fn moment_of(reading: Option<(i64, u32)>) -> Option<Moment> {
    match reading {
        Some((secs, nanos)) => Some(Moment { secs, nanos }),
        None => None,
    }
}

/// Reads a stored point in time.
pub fn parse_dt(s: &str) -> (r: Option<Moment>)
    ensures
        r == moment_of(rfc3339_reading(s@)),
{
    match read_rfc3339(s) {
        Some((secs, nanos)) => Some(Moment { secs, nanos }),
        None => None,
    }
}

/// Writes a point in time for storage, with the offset of local time from UTC.
/// An ordinary time is read back by [`parse_dt`] as it was.
pub fn format_dt(at: Moment, offset: i32) -> (r: Option<String>)
    ensures
        match r {
            Some(s) => rfc3339_writing(at.secs, at.nanos, offset) == Some(s@),
            None => rfc3339_writing(at.secs, at.nanos, offset) is None,
        },
        is_ordinary_time(at.secs, at.nanos, offset) ==> r is Some && moment_of(
            rfc3339_reading(r->Some_0@),
        ) == Some(at),
{
    write_rfc3339(at.secs, at.nanos, offset)
}

/// The seconds of a number of days.
pub open spec fn days_in_secs(days: int) -> int {
    days * 86_400
}

/// The point in time a number of days ago; none if a [`Moment`] cannot hold it.
pub open spec fn days_before(now: Moment, days: i64) -> Option<Moment> {
    let secs = now.secs - days_in_secs(days as int);
    if i64::MIN <= secs <= i64::MAX {
        Some(Moment { secs: secs as i64, nanos: now.nanos })
    } else {
        None
    }
}

/// The point in time a number of days ago, from which on history is kept or
/// listed.
pub fn cutoff(now: Moment, days: i64) -> (r: Option<Moment>)
    ensures
        r == days_before(now, days),
{
    let secs: i128 = now.secs as i128 - days as i128 * 86_400;
    if i64::MIN as i128 <= secs && secs <= i64::MAX as i128 {
        Some(Moment { secs: secs as i64, nanos: now.nanos })
    } else {
        None
    }
}

// ---------------------------------------------------------------------------
// Laws
// ---------------------------------------------------------------------------

/// The whole seconds that have passed, nothing if none have.
pub open spec fn seconds_apart(start: Moment, end: Moment) -> int {
    let nanos = (end.secs - start.secs) * 1_000_000_000 + (end.nanos - start.nanos);
    if nanos >= 0 {
        nanos / 1_000_000_000
    } else {
        0
    }
}

/// Elapsed seconds are those that have passed in full: one more would lie after the
/// end. Before the start none have passed.
pub proof fn elapsed_seconds_have_passed(start: Moment, end: Moment)
    ensures
        ({
            let n = elapsed_secs_spec(start, end);
            let passed = nanos_between(start, end);
            &&& n >= 0
            &&& passed < 0 ==> n == 0
            &&& passed >= 0 && n < i64::MAX ==> n * 1_000_000_000 <= passed < (n + 1)
                * 1_000_000_000
            &&& passed == (end.secs * 1_000_000_000 + end.nanos) - (start.secs * 1_000_000_000
                + start.nanos)
        }),
{
}

/// Whole hours are whole seconds in portions of 3600, and negative ones are those
/// of the opposite span.
pub proof fn hours_are_of_3600_seconds(start: Moment, end: Moment)
    ensures
        nanos_between(start, end) >= 0 ==> {
            &&& whole_seconds(start, end) * 1_000_000_000 <= nanos_between(start, end)
                < (whole_seconds(start, end) + 1) * 1_000_000_000
            &&& whole_hours(start, end) * 3600 <= whole_seconds(start, end) < (whole_hours(
                start,
                end,
            ) + 1) * 3600
        },
        whole_seconds(end, start) == -whole_seconds(start, end),
        whole_hours(end, start) == -whole_hours(start, end),
{
}

/// Points in time are in one order: earlier is what time passes from.
pub proof fn earlier_is_before(a: Moment, b: Moment)
    requires
        a.nanos < 1_000_000_000,
        b.nanos < 1_000_000_000,
    ensures
        earlier(a, b) <==> nanos_between(a, b) > 0,
        earlier(a, b) || earlier(b, a) || a == b,
        !(earlier(a, b) && earlier(b, a)),
{
}

/// A cutoff lies as many days of 86400 seconds before, to the nanosecond.
pub proof fn cutoffs_lie_days_before(now: Moment, days: i64)
    ensures
        days_before(now, days) matches Some(then) ==> nanos_between(then, now) == days * 86_400
            * 1_000_000_000,
        days_before(now, days) is None <==> !(i64::MIN <= now.secs - days * 86_400 <= i64::MAX),
{
}

/// A notation that is read as a timestamp and its nanoseconds stands for just that
/// point in time.
pub proof fn readings_are_taken_as_they_are(secs: i64, nanos: u32)
    ensures
        moment_of(Some((secs, nanos))) == Some(Moment { secs, nanos }),
        moment_of(None) is None,
{
}

} // verus!
