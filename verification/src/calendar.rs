//! Calendar days and UTC timestamps.
//!
//! A timestamp counts non-leap seconds since 1 January 1970, 00:00:00 UTC, so
//! every calendar day spans exactly 86 400 consecutive timestamps.  Turning a
//! date text into a day number and a timestamp into its display text is left
//! to `chrono`; everything between those two calls is plain integer
//! arithmetic, proved here.

use vstd::prelude::*;

verus! {

/// Number of timestamps in one calendar day.
pub const SECONDS_PER_DAY: i64 = 86_400;

/// Day number of 1 January of the year -262143, the first day `chrono` can
/// represent.  Day 0 is 1 January 1970.
pub const FIRST_EPOCH_DAY: i32 = -96_465_292;

/// Day number of 31 December of the year 262142, the last day `chrono` can
/// represent.
pub const LAST_EPOCH_DAY: i32 = 95_026_236;

/// The `strftime` pattern of a date in a request: day, month, year.
pub const DATE_FORMAT: &'static str = "%d-%m-%Y";

/// The `strftime` pattern of a publication time in a response: day, month,
/// year, then hour and minute.
pub const DISPLAY_FORMAT: &'static str = "%d-%m-%Y, %H:%M";

/// The calendar day on which `timestamp` falls (rounding towards the past).
pub open spec fn epoch_day(timestamp: int) -> int {
    timestamp / 86_400
}

/// The first timestamp of `day`: 00:00:00 UTC.
pub open spec fn day_start(day: int) -> int {
    day * 86_400
}

/// The last timestamp of `day`: 23:59:59 UTC.
pub open spec fn day_end(day: int) -> int {
    day * 86_400 + 86_399
}

/// Whether `timestamp` falls on a day that `chrono` can represent.
pub open spec fn representable(timestamp: int) -> bool {
    FIRST_EPOCH_DAY <= epoch_day(timestamp) <= LAST_EPOCH_DAY
}

/// The day number that `chrono` reads out of `text` under the pattern
/// `format`, or `None` where it rejects the text.
pub uninterp spec fn parsed_epoch_day(text: Seq<char>, format: Seq<char>) -> Option<int>;

/// The text that `chrono` writes for the UTC date and time of `timestamp`
/// under the pattern `format`.
pub uninterp spec fn formatted_utc(timestamp: int, format: Seq<char>) -> Seq<char>;

/// Calls `chrono::NaiveDate::parse_from_str` and reads the day number off the
/// date with `NaiveDate::to_epoch_days`.
///
/// Trusted: the result is `chrono`'s, a day number where it accepts the text
/// and nothing where it rejects it.
#[verifier::external_body]
pub(crate) fn parse_epoch_day(text: &str, format: &str) -> (day: Option<i32>)
    ensures
        day matches Some(d) ==> parsed_epoch_day(text@, format@) == Some(d as int),
        day is None ==> parsed_epoch_day(text@, format@) is None,
{
    match chrono::NaiveDate::parse_from_str(text, format) {
        Ok(date) => Some(date.to_epoch_days()),
        Err(_) => None,
    }
}

/// Calls `chrono::DateTime::from_timestamp` and writes the moment out with
/// `DateTime::format` and `DelayedFormat::write_to`.
///
/// Trusted: a text comes back only for a representable timestamp and is
/// `chrono`'s; under the display pattern every representable timestamp has
/// one.
#[verifier::external_body]
pub(crate) fn format_utc(timestamp: i64, format: &str) -> (text: Option<String>)
    ensures
        text matches Some(t) ==> t@ == formatted_utc(timestamp as int, format@) && representable(
            timestamp as int,
        ),
        format@ == DISPLAY_FORMAT@ && representable(timestamp as int) ==> text is Some,
{
    let moment = chrono::DateTime::from_timestamp(timestamp, 0)?;
    let mut text = String::new();
    match moment.format(format).write_to(&mut text) {
        Ok(()) => Some(text),
        Err(_) => None,
    }
}

/// Reads a request date, written as day-month-year, into its day number.
pub fn parse_date(text: &str) -> (day: Option<i32>)
    ensures
        day matches Some(d) ==> parsed_epoch_day(text@, DATE_FORMAT@) == Some(d as int),
        day is None ==> parsed_epoch_day(text@, DATE_FORMAT@) is None,
{
    parse_epoch_day(text, DATE_FORMAT)
}

/// The timestamp of 00:00:00 UTC on `day`.
pub fn first_second(day: i32) -> (timestamp: i64)
    ensures
        timestamp == day_start(day as int),
{
    day as i64 * SECONDS_PER_DAY
}

/// The timestamp of 23:59:59 UTC on `day`.
pub fn last_second(day: i32) -> (timestamp: i64)
    ensures
        timestamp == day_end(day as int),
{
    day as i64 * SECONDS_PER_DAY + (SECONDS_PER_DAY - 1)
}

/// Renders a publication time as day-month-year, hour:minute in UTC.
///
/// Fails exactly on the timestamps that fall outside the calendar.
pub fn utc_minute(timestamp: i64) -> (text: Option<String>)
    ensures
        text is Some <==> representable(timestamp as int),
        text matches Some(t) ==> t@ == formatted_utc(timestamp as int, DISPLAY_FORMAT@),
{
    format_utc(timestamp, DISPLAY_FORMAT)
}

} // verus!
