//! Points in time, and the time between them.

use crate::text::has_suffix;
use chrono::{Datelike, Timelike};
use vstd::prelude::*;

verus! {

/// A point in time, in UTC.
///
/// `second` counts from midnight. Within a leap second `nano` is 1,000,000,000 or more, and
/// `second` is that of the second before.
#[derive(Debug, Clone, Copy, PartialEq, Eq, Structural)]
pub struct Stamp {
    pub day: i32,
    pub second: u32,
    pub nano: u32,
}

/// Whether `s` lies in the years that RFC 3339 can name, give or take a day, and counts a leap
/// second only at the end of a minute.
pub open spec fn is_valid(s: Stamp) -> bool {
    &&& -400 <= s.day <= 4_000_000
    &&& s.second < 86_400
    &&& s.nano < 2_000_000_000
    &&& s.nano >= 1_000_000_000 ==> s.second % 60 == 59
}

/// The point in time that `chrono::DateTime::parse_from_rfc3339` reads from a text, if any.
pub uninterp spec fn rfc3339_stamp(text: Seq<char>) -> Option<Stamp>;

/// `chrono::DateTime::parse_from_rfc3339` reads a point in time; years have four digits. The
/// result depends on the text alone; which texts are accepted, and as which point in time, is not
/// said.
#[verifier::external_body]
pub(crate) fn read_rfc3339(text: &str) -> (r: Option<Stamp>)
    ensures
        r == rfc3339_stamp(text@),
        r matches Some(s) ==> is_valid(s),
{
    let read = chrono::DateTime::parse_from_rfc3339(text).ok()?.with_timezone(&chrono::Utc).naive_utc();
    Some(
        Stamp {
            day: read.num_days_from_ce(),
            second: read.num_seconds_from_midnight(),
            nano: read.nanosecond(),
        },
    )
}

/// Whether `t` gives its year a sign, which it does unless the year has four digits.
pub open spec fn has_signed_year(t: Seq<char>) -> bool {
    t.len() > 0 && (t[0] == '+' || t[0] == '-')
}

/// Whether `t` can be the time now: at least date, time of day and offset; the offset is that of UTC;
/// and it can be read, unless the year has a sign.
pub open spec fn is_now_text(t: Seq<char>) -> bool {
    &&& t.len() >= 25
    &&& has_suffix(t, "+00:00"@)
    &&& !has_signed_year(t) ==> rfc3339_stamp(t) is Some
}

/// `chrono::Utc::now` reads the clock, and `chrono::DateTime::to_rfc3339` writes the time down, as
/// [`is_now_text`] says. Which time it is, is not said. It panics if the clock stands before 1970 or
/// behind the last day that `chrono` knows.
#[verifier::external_body]
pub(crate) fn now_rfc3339() -> (r: String)
    ensures
        is_now_text(r@),
{
    chrono::Utc::now().to_rfc3339()
}

/// The nanoseconds from `start` to `finish`, where no second is a leap second but one that `start`
/// or `finish` falls into. Whether such a leap second is counted goes by the time of day alone.
pub open spec fn nanos_between(start: Stamp, finish: Stamp) -> int {
    let leap: int = if finish.second > start.second && start.nano >= 1_000_000_000 {
        1
    } else if finish.second < start.second && finish.nano >= 1_000_000_000 {
        -1
    } else {
        0
    };
    ((finish.day - start.day) * 86_400 + (finish.second - start.second) + leap) * 1_000_000_000 + (
    finish.nano - start.nano)
}

/// The whole seconds from `start` to `finish`, if `finish` does not come first.
pub open spec fn seconds_between(start: Stamp, finish: Stamp) -> Option<u64> {
    if nanos_between(start, finish) < 0 {
        None
    } else {
        Some((nanos_between(start, finish) / 1_000_000_000) as u64)
    }
}

/// `chrono::DateTime::signed_duration_since` gives the time between two points in time, and
/// `chrono::TimeDelta::to_std` the same as a `std::time::Duration`, which cannot be negative. The
/// claim is that they count as [`nanos_between`] does.
#[verifier::external_body]
pub(crate) fn whole_seconds(start: Stamp, finish: Stamp) -> (r: Option<u64>)
    requires
        is_valid(start),
        is_valid(finish),
    ensures
        r == seconds_between(start, finish),
{
    let at = |s: Stamp| {
        let day = chrono::NaiveDate::from_num_days_from_ce_opt(s.day).unwrap();
        day.and_time(chrono::NaiveTime::from_num_seconds_from_midnight_opt(s.second, s.nano).unwrap()).and_utc()
    };
    at(finish).signed_duration_since(at(start)).to_std().ok().map(|d| d.as_secs())
}

/// The whole seconds from `start` to `finish`, and 0 if one of them is missing or if `finish` comes
/// first.
pub open spec fn elapsed_between(start: Option<Stamp>, finish: Option<Stamp>) -> u64 {
    match (start, finish) {
        (Some(s), Some(f)) => match seconds_between(s, f) {
            Some(n) => n,
            None => 0,
        },
        _ => 0,
    }
}

/// The whole seconds from `start` to `finish`, and 0 if one of them is missing or if `finish` comes
/// first.
pub fn seconds_elapsed(start: Option<Stamp>, finish: Option<Stamp>) -> (r: u64)
    requires
        start matches Some(s) ==> is_valid(s),
        finish matches Some(s) ==> is_valid(s),
    ensures
        r == elapsed_between(start, finish),
{
    match (start, finish) {
        (Some(s), Some(f)) => match whole_seconds(s, f) {
            Some(n) => n,
            None => 0,
        },
        _ => 0,
    }
}

/// The whole seconds from `started_at` to `finished_at`, both in the notation of RFC 3339. It is 0
/// if one of them cannot be read, and if `finished_at` comes first.
pub open spec fn elapsed(started_at: Seq<char>, finished_at: Seq<char>) -> u64 {
    elapsed_between(rfc3339_stamp(started_at), rfc3339_stamp(finished_at))
}

/// The whole seconds from `started_at` to `finished_at`, both in the notation of RFC 3339. It is 0
/// if one of them cannot be read, and if `finished_at` comes first.
pub fn elapsed_seconds(started_at: &str, finished_at: &str) -> (r: u64)
    ensures
        r == elapsed(started_at@, finished_at@),
{
    seconds_elapsed(read_rfc3339(started_at), read_rfc3339(finished_at))
}

}
