//! Filtering posts by their sentiment score.

use crate::data_structs::SentimentThresholdQuery;
use crate::reply::{Reply, ReplyView, Status};
use crate::score::{is_number, Score};
use crate::statement::{Statement, StatementView};
use vstd::prelude::*;

verus! {

/// The path on which this request is served.
pub const ROUTE: &'static str = "/posts/sentiment_threshold";

/// The body sent when the lower bound is no number.
pub const BAD_LOWER_BOUND: &'static str = "An error occurred while parsing the lower bound.";

/// The body sent when the upper bound is no number.
pub const BAD_UPPER_BOUND: &'static str = "An error occurred while parsing the upper bound.";

/// Reads the two bounds of a sentiment filter from their numerals, or names
/// the bound that is no number.  The lower bound is looked at first.
pub fn read_bounds(lower: &str, upper: &str) -> (query: Result<SentimentThresholdQuery, Reply>)
    ensures
        match query {
            Ok(bounds) => is_number(lower@) && is_number(upper@) && bounds.lower@ == lower@
                && bounds.upper@ == upper@,
            Err(reply) => if !is_number(lower@) {
                reply@ == (ReplyView { status: Status::BadRequest, body: BAD_LOWER_BOUND@ })
            } else {
                !is_number(upper@) && reply@ == (ReplyView {
                    status: Status::BadRequest,
                    body: BAD_UPPER_BOUND@,
                })
            },
        },
{
    match Score::parse(lower) {
        None => Err(Reply::new(Status::BadRequest, BAD_LOWER_BOUND)),
        Some(lower) => match Score::parse(upper) {
            None => Err(Reply::new(Status::BadRequest, BAD_UPPER_BOUND)),
            Some(upper) => Ok(SentimentThresholdQuery { upper, lower }),
        },
    }
}

/// Chooses the statement for a sentiment filter.
///
/// The bounds are handed on as they came, the lower one first.  Nothing asks
/// that the lower bound be the smaller one: bounds the wrong way round select
/// no post.
pub fn get_data_by_sentiment_threshold(query: SentimentThresholdQuery) -> (statement: Statement)
    ensures
        statement@ == (StatementView::SentimentBetween {
            lower: query.lower@,
            upper: query.upper@,
        }),
{
    Statement::SentimentBetween { lower: query.lower, upper: query.upper }
}

} // verus!
