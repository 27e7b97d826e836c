//! The four statements that the service sends to the store.
//!
//! Each statement is a fixed text with numbered placeholders and the values
//! that fill them, in order.  A value never becomes part of the text.

use crate::score::Score;
use vstd::prelude::*;

verus! {

/// A statement for the store.
pub enum Statement {
    /// Every post.
    AllPosts,
    /// The posts whose key is `post_id`.
    PostById { post_id: i32 },
    /// The posts whose score lies strictly between `lower` and `upper`.
    SentimentBetween { lower: Score, upper: Score },
    /// The posts published from `start` to `end`, both included.
    PublishedBetween { start: i64, end: i64 },
}

/// A value that fills a placeholder.
pub enum Parameter {
    /// A 32-bit integer.
    Integer(i32),
    /// A 64-bit integer.
    BigInteger(i64),
    /// A double-precision number, given by its numeral.
    Double(Score),
}

/// A statement as a mathematical value.
pub enum StatementView {
    AllPosts,
    PostById { post_id: int },
    SentimentBetween { lower: Seq<char>, upper: Seq<char> },
    PublishedBetween { start: int, end: int },
}

/// A parameter as a mathematical value.
pub enum ParameterView {
    Integer(int),
    BigInteger(int),
    Double(Seq<char>),
}

impl View for Statement {
    type V = StatementView;

    open spec fn view(&self) -> StatementView {
        match self {
            Statement::AllPosts => StatementView::AllPosts,
            Statement::PostById { post_id } => StatementView::PostById { post_id: *post_id as int },
            Statement::SentimentBetween { lower, upper } => StatementView::SentimentBetween {
                lower: lower@,
                upper: upper@,
            },
            Statement::PublishedBetween { start, end } => StatementView::PublishedBetween {
                start: *start as int,
                end: *end as int,
            },
        }
    }
}

impl View for Parameter {
    type V = ParameterView;

    open spec fn view(&self) -> ParameterView {
        match self {
            Parameter::Integer(value) => ParameterView::Integer(*value as int),
            Parameter::BigInteger(value) => ParameterView::BigInteger(*value as int),
            Parameter::Double(value) => ParameterView::Double(value@),
        }
    }
}

/// The views of a list of parameters, in order.
pub open spec fn parameter_views(parameters: Seq<Parameter>) -> Seq<ParameterView> {
    Seq::new(parameters.len(), |i: int| parameters[i]@)
}

impl StatementView {
    /// The text of the statement.
    pub open spec fn sql(self) -> Seq<char> {
        match self {
            StatementView::AllPosts => "SELECT * FROM posts"@,
            StatementView::PostById { .. } => "SELECT * FROM posts WHERE post_id = $1"@,
            StatementView::SentimentBetween { .. } =>
                "SELECT * FROM posts WHERE sentiment > $1 AND sentiment < $2"@,
            StatementView::PublishedBetween { .. } =>
                "SELECT * FROM posts WHERE date >= $1 AND date <= $2"@,
        }
    }

    /// The values of the placeholders `$1`, `$2`, in that order.
    pub open spec fn parameters(self) -> Seq<ParameterView> {
        match self {
            StatementView::AllPosts => seq![],
            StatementView::PostById { post_id } => seq![ParameterView::Integer(post_id)],
            StatementView::SentimentBetween { lower, upper } => seq![
                ParameterView::Double(lower),
                ParameterView::Double(upper),
            ],
            StatementView::PublishedBetween { start, end } => seq![
                ParameterView::BigInteger(start),
                ParameterView::BigInteger(end),
            ],
        }
    }
}

impl Statement {
    /// The text of the statement.
    pub fn sql(&self) -> (text: &'static str)
        ensures
            text@ == self@.sql(),
    {
        match self {
            Statement::AllPosts => "SELECT * FROM posts",
            Statement::PostById { .. } => "SELECT * FROM posts WHERE post_id = $1",
            Statement::SentimentBetween { .. } =>
                "SELECT * FROM posts WHERE sentiment > $1 AND sentiment < $2",
            Statement::PublishedBetween { .. } =>
                "SELECT * FROM posts WHERE date >= $1 AND date <= $2",
        }
    }

    /// The values of the placeholders, in order.
    pub fn parameters(&self) -> (parameters: Vec<Parameter>)
        ensures
            parameter_views(parameters@) == self@.parameters(),
    {
        let mut parameters: Vec<Parameter> = Vec::new();
        match self {
            Statement::AllPosts => {},
            Statement::PostById { post_id } => {
                parameters.push(Parameter::Integer(*post_id));
            },
            Statement::SentimentBetween { lower, upper } => {
                parameters.push(Parameter::Double(lower.duplicate()));
                parameters.push(Parameter::Double(upper.duplicate()));
            },
            Statement::PublishedBetween { start, end } => {
                parameters.push(Parameter::BigInteger(*start));
                parameters.push(Parameter::BigInteger(*end));
            },
        }
        assert(parameter_views(parameters@) =~= self@.parameters());
        parameters
    }
}

} // verus!
