//! Calls into the `chrono` crate, on timestamps held as seconds since the Unix epoch.
use vstd::prelude::*;

verus! {

/// The first second that chrono represents: January 1 of the year -262143, 00:00:00 UTC.
pub open spec fn min_utc_timestamp() -> int {
    -8334601228800
}

/// The last second that chrono represents: December 31 of the year 262142, 23:59:59 UTC.
pub open spec fn max_utc_timestamp() -> int {
    8210266876799
}

/// Whether `Utc.timestamp_opt(secs, 0)` gives a single date-time: `secs`
/// falls within the dates that chrono represents (years -262143 to 262142).
pub open spec fn utc_timestamp_valid(secs: int) -> bool {
    min_utc_timestamp() <= secs <= max_utc_timestamp()
}

/// What `NaiveDateTime::parse_from_str(text, format)` gives, as seconds since
/// the epoch of that date-time read as UTC; `None` when the text does not fit the format.
pub uninterp spec fn parsed_datetime(text: Seq<char>, format: Seq<char>) -> Option<int>;

/// Calls `Utc.timestamp_opt(secs, 0).single()` and reports whether it is `Some`.
/// chrono's `DateTime::from_timestamp` splits `secs` into days and the second
/// of the day and gives a date exactly when the day lies between
/// `NaiveDate::MIN` and `NaiveDate::MAX`, which the contract states in seconds.
#[verifier::external_body]
pub(crate) fn call_timestamp_valid(secs: i64) -> (r: bool)
    ensures
        r == utc_timestamp_valid(secs as int),
{
    chrono::TimeZone::timestamp_opt(&chrono::Utc, secs, 0).single().is_some()
}

/// Calls `NaiveDateTime::parse_from_str` and, on success, `and_utc().timestamp()`.
#[verifier::external_body]
pub(crate) fn call_parse_datetime(text: &str, format: &str) -> (r: Option<i64>)
    ensures
        r matches Some(v) ==> parsed_datetime(text@, format@) == Some(v as int),
        r is None ==> parsed_datetime(text@, format@) is None,
{
    match chrono::NaiveDateTime::parse_from_str(text, format) {
        Ok(d) => Some(d.and_utc().timestamp()),
        Err(_) => None,
    }
}

/// The seconds of a timestamp that chrono can hold, and the epoch for any other.
pub open spec fn timestamp_or_epoch(secs: int) -> int {
    if utc_timestamp_valid(secs) {
        secs
    } else {
        0
    }
}

/// `secs` when chrono can hold that timestamp, else 0 (the epoch, chrono's default date-time).
pub fn utc_timestamp_or_epoch(secs: i64) -> (r: i64)
    ensures
        r == timestamp_or_epoch(secs as int),
{
    if call_timestamp_valid(secs) {
        secs
    } else {
        0
    }
}

/// The timestamp that `text` gives under `format`, or the epoch (chrono's
/// default date-time) when it does not fit.
pub open spec fn parsed_or_epoch(text: Seq<char>, format: Seq<char>) -> int {
    match parsed_datetime(text, format) {
        Some(v) => v,
        None => 0,
    }
}

/// Reads `text` as a date-time under `format`, or gives the epoch.
pub fn parse_datetime_or_epoch(text: &str, format: &str) -> (r: i64)
    ensures
        r as int == parsed_or_epoch(text@, format@),
{
    match call_parse_datetime(text, format) {
        Some(v) => v,
        None => 0,
    }
}

} // verus!
