//! Calendar and identifier services of outside crates, and the elapsed-time
//! arithmetic built on them.

use vstd::prelude::*;

verus! {

/// The instant an RFC 3339 timestamp denotes, in milliseconds since the Unix
/// epoch, or `None` where the text is not such a timestamp.
pub uninterp spec fn rfc3339_millis(s: Seq<char>) -> Option<i64>;

/// Relies on `chrono::DateTime::parse_from_rfc3339` and
/// `DateTime::timestamp_millis`: whether the text parses and the instant it
/// denotes depend on the text alone.
#[verifier::external_body]
pub(crate) fn parse_rfc3339_millis(s: &str) -> (r: Option<i64>)
    ensures
        r == rfc3339_millis(s@),
{
    match chrono::DateTime::parse_from_rfc3339(s) {
        Ok(t) => Some(t.timestamp_millis()),
        Err(_) => None,
    }
}

/// Relies on `chrono::Utc::now` and `DateTime::timestamp_millis`: the current
/// time in milliseconds since the Unix epoch. Nothing is promised of it.
#[verifier::external_body]
pub(crate) fn now_millis() -> (r: i64) {
    chrono::Utc::now().timestamp_millis()
}

/// Relies on `chrono::Utc::now` and `DateTime::to_rfc3339`: the current time
/// as an RFC 3339 timestamp, which `DateTime::parse_from_rfc3339` reads back.
#[verifier::external_body]
pub(crate) fn now_rfc3339() -> (r: String)
    ensures
        rfc3339_millis(r@) is Some,
{
    chrono::Utc::now().to_rfc3339()
}

/// Relies on `chrono::Utc::now`, `Datelike::weekday` and
/// `Weekday::num_days_from_sunday`: today's weekday, counted from Sunday as 0,
/// which chrono documents as lying in `0..=6`.
#[verifier::external_body]
pub(crate) fn today_from_sunday() -> (r: u32)
    ensures
        r < 7,
{
    chrono::Datelike::weekday(&chrono::Utc::now()).num_days_from_sunday()
}

/// Relies on `uuid::Uuid::new_v4` and its `Display`: a fresh random
/// identifier in the hyphenated form, 36 characters long.
#[verifier::external_body]
pub(crate) fn new_id() -> (r: String)
    ensures
        r@.len() == 36,
{
    uuid::Uuid::new_v4().to_string()
}

/// Whole minutes from `start` to `end` (milliseconds), truncated toward zero:
/// negative when `end` lies before `start`.
pub open spec fn minutes_between(start: int, end: int) -> int {
    let d = end - start;
    if d >= 0 {
        d / 60000
    } else {
        -((-d) / 60000)
    }
}

/// Whole days from `start` to `end` (milliseconds), truncated toward zero.
pub open spec fn days_between(start: int, end: int) -> int {
    let d = end - start;
    if d >= 0 {
        d / 86400000
    } else {
        -((-d) / 86400000)
    }
}

/// Whole minutes from `start_ms` to `end_ms`, truncated toward zero.
pub fn elapsed_minutes(start_ms: i64, end_ms: i64) -> (r: i64)
    ensures
        r == minutes_between(start_ms as int, end_ms as int),
{
    let d: i128 = end_ms as i128 - start_ms as i128;
    if d >= 0 {
        (d / 60000) as i64
    } else {
        -(((-d) / 60000) as i64)
    }
}

/// Whole days from `start_ms` to `end_ms`, truncated toward zero.
pub fn elapsed_days(start_ms: i64, end_ms: i64) -> (r: i64)
    ensures
        r == days_between(start_ms as int, end_ms as int),
{
    let d: i128 = end_ms as i128 - start_ms as i128;
    if d >= 0 {
        (d / 86400000) as i64
    } else {
        -(((-d) / 86400000) as i64)
    }
}

} // verus!
