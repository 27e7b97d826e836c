//! What the service answers: a status and a body.
//!
//! The tail of every filtering request is the same.  Once the store has
//! answered, no rows become a fixed message, a failure becomes a server
//! error, and rows are written one by one and framed.

use crate::calendar::representable;
use crate::create_response::{create_response, ResponseFormat};
use crate::data_structs::{Post, PostView};
use crate::json::{array_text, write_array};
use crate::text::{
    join, joined, lemma_occurs_in_middle, lemma_part_occurs_in_joined, occurs_in, texts,
};
use vstd::prelude::*;

verus! {

/// The body that stands for an empty result.
pub const NO_DATA: &'static str = "No data available for your request.";

/// The body sent when the store could not answer.
pub const FETCH_FAILED: &'static str = "An error occurred while fetching the data.";

/// The body sent when a stored publication time cannot be shown.
pub const FORMAT_FAILED: &'static str = "An error occurred while formatting the data.";

/// The status of a reply.
#[derive(Clone, Copy, Debug, PartialEq, Eq, Structural)]
pub enum Status {
    /// The request was served.
    Success,
    /// The request was malformed.
    BadRequest,
    /// The service failed.
    InternalServerError,
}

impl Status {
    /// The HTTP status code.
    pub open spec fn code_of(self) -> int {
        match self {
            Status::Success => 200,
            Status::BadRequest => 400,
            Status::InternalServerError => 500,
        }
    }

    /// The HTTP status code.
    pub fn code(&self) -> (code: u16)
        ensures
            code == self.code_of(),
    {
        match self {
            Status::Success => 200,
            Status::BadRequest => 400,
            Status::InternalServerError => 500,
        }
    }
}

/// A reply to a request.
pub struct Reply {
    /// The status.
    pub status: Status,
    /// The body.
    pub body: String,
}

/// A reply as a mathematical value.
pub struct ReplyView {
    pub status: Status,
    pub body: Seq<char>,
}

impl View for Reply {
    type V = ReplyView;

    open spec fn view(&self) -> ReplyView {
        ReplyView { status: self.status, body: self.body@ }
    }
}

impl Reply {
    /// A reply with the given status and body.
    pub fn new(status: Status, body: &str) -> (reply: Reply)
        ensures
            reply@ == (ReplyView { status, body: body@ }),
    {
        Reply { status, body: String::from_str(body) }
    }
}

/// What came back from the store.
pub enum QueryOutcome {
    /// The rows that the statement selected, in the order of the store.
    Rows(Vec<Post>),
    /// The statement could not be run.
    Failed,
}

/// The views of a list of posts, in order.
pub open spec fn post_views(rows: Seq<Post>) -> Seq<PostView> {
    Seq::new(rows.len(), |i: int| rows[i]@)
}

/// Every publication time among the rows can be shown.
pub open spec fn all_representable(rows: Seq<PostView>) -> bool {
    forall|i: int| 0 <= i < rows.len() ==> representable((#[trigger] rows[i]).published_at)
}

/// Each row written in `format`, in order.
pub open spec fn rendered_rows(rows: Seq<PostView>, format: ResponseFormat) -> Seq<Seq<char>> {
    Seq::new(rows.len(), |i: int| rows[i].rendered(format))
}

/// The written rows put together: lines of text are separated by line
/// breaks, JSON objects become the items of one array.
pub open spec fn framed(units: Seq<Seq<char>>, format: ResponseFormat) -> Seq<char> {
    match format {
        ResponseFormat::Text => joined(units, seq!['\n']),
        ResponseFormat::Json => array_text(units),
    }
}

/// The reply to a request for which the store returned `rows`.
pub open spec fn reply_for_rows(rows: Seq<PostView>, format: ResponseFormat) -> ReplyView {
    if rows.len() == 0 {
        ReplyView { status: Status::Success, body: NO_DATA@ }
    } else if !all_representable(rows) {
        ReplyView { status: Status::InternalServerError, body: FORMAT_FAILED@ }
    } else {
        ReplyView { status: Status::Success, body: framed(rendered_rows(rows, format), format) }
    }
}

/// The reply to a request, given what came back from the store.
pub open spec fn reply_for(outcome: QueryOutcome, format: ResponseFormat) -> ReplyView {
    match outcome {
        QueryOutcome::Rows(rows) => reply_for_rows(post_views(rows@), format),
        QueryOutcome::Failed => ReplyView {
            status: Status::InternalServerError,
            body: FETCH_FAILED@,
        },
    }
}

/// Puts written rows together in `format`.
pub fn frame(units: &Vec<String>, format: ResponseFormat) -> (body: String)
    ensures
        body@ == framed(texts(units@), format),
{
    match format {
        ResponseFormat::Text => {
            proof {
                reveal_strlit("\n");
                assert("\n"@ =~= seq!['\n']);
            }
            join(units, "\n")
        },
        ResponseFormat::Json => write_array(units),
    }
}

/// Answers a request for which the store returned `rows`.
///
/// No rows give the fixed no-data message, never an empty list.  One row
/// that cannot be written fails the whole request.
pub fn respond_with_rows(rows: &Vec<Post>, format: ResponseFormat) -> (reply: Reply)
    ensures
        reply@ == reply_for_rows(post_views(rows@), format),
{
    if rows.len() == 0 {
        return Reply::new(Status::Success, NO_DATA);
    }
    let ghost views = post_views(rows@);
    let mut units: Vec<String> = Vec::new();
    let mut i: usize = 0;
    while i < rows.len()
        invariant
            i <= rows.len(),
            views == post_views(rows@),
            units@.len() == i,
            forall|k: int| 0 <= k < i ==> representable((#[trigger] views[k]).published_at),
            forall|k: int| 0 <= k < i ==> (#[trigger] units@[k])@ == views[k].rendered(format),
        decreases rows.len() - i,
    {
        match create_response(&rows[i], format) {
            Ok(unit) => {
                units.push(unit);
            },
            Err(_) => {
                assert(!representable(views[i as int].published_at));
                return Reply::new(Status::InternalServerError, FORMAT_FAILED);
            },
        }
        i += 1;
    }
    proof {
        assert(texts(units@) =~= rendered_rows(views, format));
    }
    let body = frame(&units, format);
    Reply { status: Status::Success, body }
}

/// Answers a request, given what came back from the store.
pub fn respond(outcome: &QueryOutcome, format: ResponseFormat) -> (reply: Reply)
    ensures
        reply@ == reply_for(*outcome, format),
{
    match outcome {
        QueryOutcome::Rows(rows) => respond_with_rows(rows, format),
        QueryOutcome::Failed => Reply::new(Status::InternalServerError, FETCH_FAILED),
    }
}

/// An empty result is answered with the no-data message in either format.
pub proof fn lemma_no_rows_reply(format: ResponseFormat)
    ensures
        reply_for_rows(Seq::empty(), format) == (ReplyView {
            status: Status::Success,
            body: NO_DATA@,
        }),
{
}

/// A single row is answered with that row alone: its line of text, or an
/// array whose only item is its JSON object.
pub proof fn lemma_single_row_reply(row: PostView, format: ResponseFormat)
    requires
        representable(row.published_at),
    ensures
        reply_for_rows(seq![row], format) == (ReplyView {
            status: Status::Success,
            body: match format {
                ResponseFormat::Text => row.rendered(format),
                ResponseFormat::Json => seq!['['] + row.rendered(format) + seq![']'],
            },
        }),
{
    let rows = seq![row];
    assert(rendered_rows(rows, format) =~= seq![row.rendered(format)]);
}

/// Every row that a reply was made from stands in its body, written in
/// full.
pub proof fn lemma_every_row_is_shown(rows: Seq<PostView>, format: ResponseFormat, i: int)
    requires
        all_representable(rows),
        0 <= i < rows.len(),
    ensures
        reply_for_rows(rows, format).status == Status::Success,
        occurs_in(rows[i].rendered(format), reply_for_rows(rows, format).body),
{
    let units = rendered_rows(rows, format);
    match format {
        ResponseFormat::Text => {
            lemma_part_occurs_in_joined(units, seq!['\n'], i);
        },
        ResponseFormat::Json => {
            lemma_part_occurs_in_joined(units, seq![','], i);
            lemma_occurs_in_middle(units[i], seq!['['], joined(units, seq![',']), seq![']']);
        },
    }
}

} // verus!
