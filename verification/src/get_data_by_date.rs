//! Filtering posts by their publication date.

use crate::calendar::{
    day_end, day_start, epoch_day, first_second, last_second, parse_date, parsed_epoch_day,
    DATE_FORMAT,
};
use crate::data_structs::DateTimeRangeQuery;
use crate::reply::{Reply, ReplyView, Status};
use crate::statement::{Statement, StatementView};
use vstd::prelude::*;

verus! {

/// The path on which this request is served.
pub const ROUTE: &'static str = "/posts/date";

/// The body sent when the first day of a range is no date.
pub const BAD_START_DATE: &'static str = "An error occurred while parsing the start date.";

/// The body sent when the last day of a range is no date.
pub const BAD_END_DATE: &'static str = "An error occurred while parsing the end date.";

/// A day number as a mathematical integer.
pub open spec fn day_number(day: Option<i32>) -> Option<int> {
    match day {
        Some(d) => Some(d as int),
        None => None,
    }
}

/// The outcome of planning as a mathematical value.
pub open spec fn plan_view(plan: Result<Statement, Reply>) -> Result<StatementView, ReplyView> {
    match plan {
        Ok(statement) => Ok(statement@),
        Err(reply) => Err(reply@),
    }
}

/// What a date filter leads to, given the day numbers read from its two
/// dates.
///
/// A first day that is no date is reported before a last day that is none.
/// Two dates give the statement that runs from the first second of the first
/// day to the last second of the last day.
pub open spec fn date_range_plan(first: Option<int>, last: Option<int>) -> Result<
    StatementView,
    ReplyView,
> {
    match (first, last) {
        (None, _) => Err(ReplyView { status: Status::BadRequest, body: BAD_START_DATE@ }),
        (Some(_), None) => Err(ReplyView { status: Status::BadRequest, body: BAD_END_DATE@ }),
        (Some(first), Some(last)) => Ok(
            StatementView::PublishedBetween { start: day_start(first), end: day_end(last) },
        ),
    }
}

/// Whether a publication time satisfies a statement that runs from `start`
/// to `end`, both included.
pub open spec fn within(start: int, end: int, timestamp: int) -> bool {
    start <= timestamp <= end
}

/// Chooses the statement for a date filter whose dates have been read.
///
/// Nothing asks that the first day come first: days the wrong way round
/// select no post.
pub fn date_range_statement(first: Option<i32>, last: Option<i32>) -> (plan: Result<
    Statement,
    Reply,
>)
    ensures
        plan_view(plan) == date_range_plan(day_number(first), day_number(last)),
{
    match first {
        None => Err(Reply::new(Status::BadRequest, BAD_START_DATE)),
        Some(first) => match last {
            None => Err(Reply::new(Status::BadRequest, BAD_END_DATE)),
            Some(last) => Ok(
                Statement::PublishedBetween { start: first_second(first), end: last_second(last) },
            ),
        },
    }
}

/// Chooses the statement for a date filter, or the reply that rejects it.
///
/// Each date is read as day-month-year.  The filter is rejected, before any
/// statement is made, when one of the dates cannot be read.
pub fn get_data_by_date(query: DateTimeRangeQuery) -> (plan: Result<Statement, Reply>)
    ensures
        plan_view(plan) == date_range_plan(
            parsed_epoch_day(query.start@, DATE_FORMAT@),
            parsed_epoch_day(query.end@, DATE_FORMAT@),
        ),
{
    let first = parse_date(query.start.as_str());
    let last = parse_date(query.end.as_str());
    date_range_statement(first, last)
}

/// A date filter covers whole days: a publication time satisfies the
/// statement made for the days `first` to `last` exactly when the day it
/// falls on is one of them.
pub proof fn lemma_range_covers_whole_days(first: int, last: int, timestamp: int)
    ensures
        within(day_start(first), day_end(last), timestamp) <==> first <= epoch_day(timestamp)
            <= last,
{
}

/// Days the wrong way round select nothing.
pub proof fn lemma_inverted_range_selects_nothing(first: int, last: int, timestamp: int)
    requires
        first > last,
    ensures
        !within(day_start(first), day_end(last), timestamp),
{
    lemma_range_covers_whole_days(first, last, timestamp);
}

} // verus!
