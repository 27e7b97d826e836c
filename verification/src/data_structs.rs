//! The records that travel through the service: a stored post, the two
//! filters a request can carry, and the projection of a post that a response
//! shows.

use crate::score::Score;
use vstd::prelude::*;

verus! {

/// Where the table of posts keeps the key: its first column.
pub const ID_COLUMN: usize = 0;

/// Where the table keeps the publication time.
pub const DATE_COLUMN: usize = 1;

/// Where the table keeps the address of the post.  The column before it is
/// not read.
pub const URL_COLUMN: usize = 3;

/// Where the table keeps the community.
pub const SUBREDDIT_COLUMN: usize = 4;

/// Where the table keeps the title.
pub const TITLE_COLUMN: usize = 5;

/// Where the table keeps the author.
pub const AUTHOR_COLUMN: usize = 6;

/// Where the table keeps the address that the post refers to.
pub const URL_CONTAINED_COLUMN: usize = 7;

/// Where the table keeps the sentiment score.
pub const SENTIMENT_COLUMN: usize = 8;

/// Where the table keeps the body of the post.
pub const CONTENT_COLUMN: usize = 9;

/// The bounds of a sentiment filter.  Both are exclusive.
pub struct SentimentThresholdQuery {
    /// The upper bound of the sentiment threshold.
    pub upper: Score,
    /// The lower bound of the sentiment threshold.
    pub lower: Score,
}

/// The bounds of a publication-date filter, each written day-month-year.
/// Both days are included.
pub struct DateTimeRangeQuery {
    /// The first day.
    pub start: String,
    /// The last day.
    pub end: String,
}

/// One row of the table of posts.
pub struct Post {
    /// The key of the row.
    pub id: i32,
    /// The publication time, in seconds since 1 January 1970 UTC.
    pub published_at: i64,
    /// The address of the post.
    pub url: String,
    /// The community the post was published in.
    pub subreddit: String,
    /// The title of the post.
    pub title: String,
    /// The author of the post.
    pub author: String,
    /// An address that the post refers to.
    pub contained_url: String,
    /// The sentiment score of the post.
    pub sentiment: Score,
    /// The body of the post.
    pub content: String,
}

/// What a response shows of a post.
pub struct ApiResponse {
    /// The key of the post.
    pub id: i32,
    /// The publication time as day-month-year, hour:minute in UTC.
    pub date: String,
    /// The address of the post.
    pub url: String,
    /// The community the post was published in.
    pub subreddit: String,
    /// The title of the post.
    pub title: String,
    /// The author of the post.
    pub author: String,
    /// An address that the post refers to.
    pub url_contained: String,
    /// The sentiment score of the post.
    pub sentiment: Score,
    /// The body of the post.
    pub content: String,
}

/// A post as a mathematical value.
pub struct PostView {
    pub id: int,
    pub published_at: int,
    pub url: Seq<char>,
    pub subreddit: Seq<char>,
    pub title: Seq<char>,
    pub author: Seq<char>,
    pub contained_url: Seq<char>,
    pub sentiment: Seq<char>,
    pub content: Seq<char>,
}

/// A response record as a mathematical value.
pub struct ApiResponseView {
    pub id: int,
    pub date: Seq<char>,
    pub url: Seq<char>,
    pub subreddit: Seq<char>,
    pub title: Seq<char>,
    pub author: Seq<char>,
    pub url_contained: Seq<char>,
    pub sentiment: Seq<char>,
    pub content: Seq<char>,
}

impl View for Post {
    type V = PostView;

    open spec fn view(&self) -> PostView {
        PostView {
            id: self.id as int,
            published_at: self.published_at as int,
            url: self.url@,
            subreddit: self.subreddit@,
            title: self.title@,
            author: self.author@,
            contained_url: self.contained_url@,
            sentiment: self.sentiment@,
            content: self.content@,
        }
    }
}

impl View for ApiResponse {
    type V = ApiResponseView;

    open spec fn view(&self) -> ApiResponseView {
        ApiResponseView {
            id: self.id as int,
            date: self.date@,
            url: self.url@,
            subreddit: self.subreddit@,
            title: self.title@,
            author: self.author@,
            url_contained: self.url_contained@,
            sentiment: self.sentiment@,
            content: self.content@,
        }
    }
}

impl PostView {
    /// The response record of the post, once its publication time has been
    /// rendered as `date`: every other field is carried over unchanged.
    pub open spec fn shown_with(self, date: Seq<char>) -> ApiResponseView {
        ApiResponseView {
            id: self.id,
            date,
            url: self.url,
            subreddit: self.subreddit,
            title: self.title,
            author: self.author,
            url_contained: self.contained_url,
            sentiment: self.sentiment,
            content: self.content,
        }
    }
}

impl ApiResponse {
    /// Builds the response record of `post` around its rendered publication
    /// time.
    pub fn from_post(post: &Post, date: String) -> (response: ApiResponse)
        ensures
            response@ == post@.shown_with(date@),
    {
        ApiResponse {
            id: post.id,
            date,
            url: post.url.clone(),
            subreddit: post.subreddit.clone(),
            title: post.title.clone(),
            author: post.author.clone(),
            url_contained: post.contained_url.clone(),
            sentiment: post.sentiment.duplicate(),
            content: post.content.clone(),
        }
    }
}

} // verus!
