//! Instants, time ranges and the calendar arithmetic that the queries need.

use vstd::prelude::*;

verus! {

/// An instant as Unix seconds and the nanoseconds within that second.
#[derive(Clone, Copy, Debug, PartialEq, Eq, Structural)]
pub struct Timestamp {
    pub secs: i64,
    pub nanos: u32,
}

/// `a` is strictly earlier than `b`.
pub open spec fn earlier(a: Timestamp, b: Timestamp) -> bool {
    a.secs < b.secs || (a.secs == b.secs && a.nanos < b.nanos)
}

/// `a` is earlier than or equal to `b`.
pub open spec fn not_later(a: Timestamp, b: Timestamp) -> bool {
    a.secs < b.secs || (a.secs == b.secs && a.nanos <= b.nanos)
}

impl Timestamp {
    /// Whether `self` is strictly earlier than `other`.
    pub fn is_before(&self, other: &Timestamp) -> (r: bool)
        ensures
            r == earlier(*self, *other),
    {
        self.secs < other.secs || (self.secs == other.secs && self.nanos < other.nanos)
    }
}

/// A half-open span of time `[start, end)`.
#[derive(Clone, Copy, Debug, PartialEq, Eq, Structural)]
pub struct TimeRange {
    pub start: Timestamp,
    pub end: Timestamp,
}

/// Why a time range was refused.
#[derive(Clone, Copy, Debug, PartialEq, Eq, Structural)]
pub enum TimeRangeError {
    /// The start is not earlier than the end.
    NotIncreasing,
}

impl TimeRange {
    /// A range from `start` to `end`; refused unless `start` is earlier than `end`.
    pub fn new(start: Timestamp, end: Timestamp) -> (r: Result<TimeRange, TimeRangeError>)
        ensures
            r is Ok <==> earlier(start, end),
            r matches Ok(range) ==> range.start == start && range.end == end,
    {
        if start.is_before(&end) {
            Ok(TimeRange { start, end })
        } else {
            Err(TimeRangeError::NotIncreasing)
        }
    }
}

/// Seconds by which China Standard Time is ahead of UTC.
pub const CHINA_OFFSET_SECS: i64 = 28800;

/// Seconds in a day.
pub const DAY_SECS: i64 = 86400;

/// Midnight, China Standard Time, of the day that holds `now`.
pub open spec fn spec_china_day_start(now: Timestamp) -> Timestamp {
    Timestamp { secs: (now.secs - ((now.secs + CHINA_OFFSET_SECS) % (DAY_SECS as int))) as i64, nanos: 0 }
}

/// Midnight, China Standard Time, of the day that holds `now`.
pub fn china_day_start(now: Timestamp) -> (start: Timestamp)
    requires
        i64::MIN + DAY_SECS <= now.secs <= i64::MAX - CHINA_OFFSET_SECS,
    ensures
        start == spec_china_day_start(now),
        not_later(start, now),
{
    let shifted: i64 = now.secs + CHINA_OFFSET_SECS;
    let mut rem: i64 = shifted % DAY_SECS;
    if rem < 0 {
        rem = rem + DAY_SECS;
    }
    Timestamp { secs: now.secs - rem, nanos: 0 }
}

/// What `DateTime::<Utc>::checked_sub_signed` gives for the instant
/// `(secs, nanos)` less `TimeDelta::try_seconds(delta)`, as seconds and nanoseconds.
pub uninterp spec fn chrono_sub_seconds(secs: i64, nanos: u32, delta: i64) -> Option<(i64, u32)>;

/// A valid (non-leap) instant `(secs, nanos)` that stays, moved back by
/// `delta` seconds, within `SAFE_INSTANT_SECS` of the epoch.
pub open spec fn in_safe_range(secs: i64, nanos: u32, delta: i64) -> bool {
    &&& nanos < 1_000_000_000
    &&& -SAFE_INSTANT_SECS <= secs <= SAFE_INSTANT_SECS
    &&& -SAFE_INSTANT_SECS <= secs - delta <= SAFE_INSTANT_SECS
}

/// Largest number of seconds that `TimeDelta::try_seconds` accepts (`i64::MAX` milliseconds).
pub const MAX_DELTA_SECS: i64 = 9223372036854775;

/// Seconds from the Unix epoch (2^40, about 34 800 years) within which chrono
/// represents every instant and every difference of two such instants.
pub const SAFE_INSTANT_SECS: i64 = 1099511627776;

/// Calls chrono: `DateTime::<Utc>::from_timestamp(secs, nanos)`, then
/// `checked_sub_signed(TimeDelta::try_seconds(delta))`, and reads the result back
/// as `(timestamp(), timestamp_subsec_nanos())`. Trusted: the result is the named
/// chrono result; it is `None` when `delta` lies outside what `try_seconds`
/// accepts; it is `Some` for a valid (non-leap) instant whose start and result
/// both lie within `SAFE_INSTANT_SECS` of the epoch; and away from a leap
/// second it moves the instant back by exactly `delta` seconds. Where exactly
/// chrono's date range ends beyond that bound is not stated.
#[verifier::external_body]
fn chrono_checked_sub_seconds(secs: i64, nanos: u32, delta: i64) -> (r: Option<(i64, u32)>)
    ensures
        r == chrono_sub_seconds(secs, nanos, delta),
        delta > MAX_DELTA_SECS || delta < -MAX_DELTA_SECS ==> r is None,
        in_safe_range(secs, nanos, delta) ==> r is Some,
        r matches Some(x) ==> (nanos < 1_000_000_000 ==> x.0 == secs - delta && x.1 == nanos),
{
    let instant = chrono::DateTime::from_timestamp(secs, nanos)?;
    let span = chrono::TimeDelta::try_seconds(delta)?;
    let moved = instant.checked_sub_signed(span)?;
    Some((moved.timestamp(), moved.timestamp_subsec_nanos()))
}

/// `t` moved back by `delta` seconds, or `None` where chrono refuses it.
pub fn sub_seconds(t: Timestamp, delta: i64) -> (r: Option<Timestamp>)
    ensures
        r matches Some(x) ==> chrono_sub_seconds(t.secs, t.nanos, delta) == Some((x.secs, x.nanos)),
        r is None <==> chrono_sub_seconds(t.secs, t.nanos, delta) is None,
        r matches Some(x) ==> (t.nanos < 1_000_000_000 ==> x.secs == t.secs - delta && x.nanos == t.nanos),
        delta > MAX_DELTA_SECS || delta < -MAX_DELTA_SECS ==> r is None,
        in_safe_range(t.secs, t.nanos, delta) ==> r is Some,
{
    match chrono_checked_sub_seconds(t.secs, t.nanos, delta) {
        Some((secs, nanos)) => Some(Timestamp { secs, nanos }),
        None => None,
    }
}

/// What chrono's `DateTime::parse_from_rfc3339` reads from `text`, as Unix
/// seconds and nanoseconds (`timestamp()`, `timestamp_subsec_nanos()`);
/// `None` where it refuses the text.
pub uninterp spec fn chrono_rfc3339(text: Seq<char>) -> Option<(i64, u32)>;

/// Calls chrono's `DateTime::parse_from_rfc3339` on `text` and reads the
/// instant back as seconds and nanoseconds. Trusted: the result is the named
/// chrono result, which depends on the text alone; which texts chrono accepts
/// is not stated.
#[verifier::external_body]
fn chrono_parse_rfc3339(text: &str) -> (r: Option<(i64, u32)>)
    ensures
        r == chrono_rfc3339(text@),
{
    match chrono::DateTime::parse_from_rfc3339(text) {
        Ok(t) => Some((t.timestamp(), t.timestamp_subsec_nanos())),
        Err(_) => None,
    }
}

/// The instant that chrono reads from the parts `(secs, nanos)`.
pub open spec fn instant_of(parts: Option<(i64, u32)>) -> Option<Timestamp> {
    match parts {
        Some(x) => Some(Timestamp { secs: x.0, nanos: x.1 }),
        None => None,
    }
}

/// The instant that RFC 3339 text names, or `None` where chrono refuses it.
pub fn parse_instant(text: &str) -> (r: Option<Timestamp>)
    ensures
        r == instant_of(chrono_rfc3339(text@)),
{
    match chrono_parse_rfc3339(text) {
        Some((secs, nanos)) => Some(Timestamp { secs, nanos }),
        None => None,
    }
}

} // verus!
