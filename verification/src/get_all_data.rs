//! Listing every post, or looking one up by its key.

use crate::create_response::ResponseFormat;
use crate::data_structs::PostView;
use crate::reply::{reply_for_rows, ReplyView, Status, NO_DATA};
use crate::statement::{Statement, StatementView};
use vstd::prelude::*;

verus! {

/// The path on which every post is listed.
pub const LIST_ROUTE: &'static str = "/posts/";

/// The path on which one post is looked up by its key.
pub const LOOKUP_ROUTE: &'static str = "/posts/{post_id}";

/// The statement for a request with or without a key.
pub open spec fn lookup_plan(post_id: Option<i32>) -> StatementView {
    match post_id {
        Some(id) => StatementView::PostById { post_id: id as int },
        None => StatementView::AllPosts,
    }
}

/// No two rows of the table carry the same key.
pub open spec fn keys_are_unique(table: Seq<PostView>) -> bool {
    forall|i: int, j: int| 0 <= i < j < table.len() ==> table[i].id != table[j].id
}

/// The rows of the table that carry `key`, in the order of the table.
pub open spec fn rows_with_key(table: Seq<PostView>, key: int) -> Seq<PostView>
    decreases table.len(),
{
    if table.len() == 0 {
        Seq::empty()
    } else if table.last().id == key {
        rows_with_key(table.drop_last(), key).push(table.last())
    } else {
        rows_with_key(table.drop_last(), key)
    }
}

/// Chooses the statement for a request: with a key, the posts that carry
/// exactly that key; without one, every post.
pub fn get_all_data(post_id: Option<i32>) -> (statement: Statement)
    ensures
        statement@ == lookup_plan(post_id),
{
    match post_id {
        Some(id) => Statement::PostById { post_id: id },
        None => Statement::AllPosts,
    }
}

/// Every row that carries the key is a row of the table with that key, and
/// there is one as soon as the table has one.
pub proof fn lemma_rows_with_key_are_rows(table: Seq<PostView>, key: int)
    ensures
        forall|k: int|
            0 <= k < rows_with_key(table, key).len() ==> {
                let row = #[trigger] rows_with_key(table, key)[k];
                row.id == key && table.contains(row)
            },
        rows_with_key(table, key).len() > 0 <==> exists|i: int|
            0 <= i < table.len() && (#[trigger] table[i]).id == key,
    decreases table.len(),
{
    if table.len() > 0 {
        let before = table.drop_last();
        lemma_rows_with_key_are_rows(before, key);
        let rows = rows_with_key(table, key);
        assert forall|k: int| 0 <= k < rows.len() implies {
            let row = #[trigger] rows[k];
            row.id == key && table.contains(row)
        } by {
            let row = rows[k];
            if k < rows_with_key(before, key).len() {
                assert(rows_with_key(before, key)[k] == row);
                let i = choose|i: int| 0 <= i < before.len() && before[i] == row;
                assert(table[i] == row);
            } else {
                assert(table[table.len() - 1] == row);
            }
        }
        if rows_with_key(before, key).len() > 0 {
            let i = choose|i: int| 0 <= i < before.len() && (#[trigger] before[i]).id == key;
            assert(table[i].id == key);
        }
        if exists|i: int| 0 <= i < table.len() && (#[trigger] table[i]).id == key {
            let i = choose|i: int| 0 <= i < table.len() && (#[trigger] table[i]).id == key;
            if i < before.len() {
                assert(before[i].id == key);
            }
        }
    }
}

/// A lookup finds at most one post.
///
/// Where keys are unique, the rows that carry a key are none or one.  None
/// is answered with the no-data message; one is a post of the table with
/// exactly that key, and is there whenever the table holds such a post.
pub proof fn lemma_lookup_finds_at_most_one(
    table: Seq<PostView>,
    post_id: i32,
    format: ResponseFormat,
)
    requires
        keys_are_unique(table),
    ensures
        rows_with_key(table, post_id as int).len() <= 1,
        rows_with_key(table, post_id as int).len() == 0 ==> reply_for_rows(
            rows_with_key(table, post_id as int),
            format,
        ) == (ReplyView { status: Status::Success, body: NO_DATA@ }),
        rows_with_key(table, post_id as int).len() == 1 ==> {
            let row = rows_with_key(table, post_id as int)[0];
            row.id == post_id && table.contains(row)
        },
        rows_with_key(table, post_id as int).len() == 1 <==> exists|i: int|
            0 <= i < table.len() && (#[trigger] table[i]).id == post_id,
    decreases table.len(),
{
    let key = post_id as int;
    lemma_rows_with_key_are_rows(table, key);
    if table.len() > 0 {
        let before = table.drop_last();
        assert(keys_are_unique(before)) by {
            assert forall|i: int, j: int| 0 <= i < j < before.len() implies before[i].id
                != before[j].id by {
                assert(table[i].id != table[j].id);
            }
        }
        lemma_lookup_finds_at_most_one(before, post_id, format);
        lemma_rows_with_key_are_rows(before, key);
        if table.last().id == key && rows_with_key(before, key).len() > 0 {
            let i = choose|i: int| 0 <= i < before.len() && (#[trigger] before[i]).id == key;
            assert(table[i].id == table[table.len() - 1].id);
        }
    }
}

} // verus!
