//! The landing page.

use crate::reply::{Reply, ReplyView, Status};
use vstd::prelude::*;

verus! {

/// The path on which this request is served.
pub const ROUTE: &'static str = "/";

/// The body of the landing page.
pub const GREETING: &'static str =
    "This is the index of the tennis db api. Fire away with your request!";

/// Answers a request for the landing page: always the same greeting, which
/// shows that the service is up.
pub fn index() -> (reply: Reply)
    ensures
        reply@ == (ReplyView { status: Status::Success, body: GREETING@ }),
{
    Reply::new(Status::Success, GREETING)
}

} // verus!
