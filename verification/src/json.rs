//! Writing JSON text.
//!
//! How a string is quoted and escaped is left to `serde_json`.  Objects and
//! arrays are framed here, around values that are already encoded.

use crate::text::{join, joined, texts};
use vstd::prelude::*;

verus! {

/// The JSON string literal that `serde_json` writes for `value`: the opening
/// quote, the characters with their escapes, the closing quote.
pub uninterp spec fn json_string_text(value: Seq<char>) -> Seq<char>;

/// A member of an object: the name as a string literal, a colon, the value.
pub open spec fn member_text(name: Seq<char>, value: Seq<char>) -> Seq<char> {
    json_string_text(name) + seq![':'] + value
}

/// An object: its members between braces, separated by commas.
pub open spec fn object_text(members: Seq<Seq<char>>) -> Seq<char> {
    seq!['{'] + joined(members, seq![',']) + seq!['}']
}

/// An array: its items between brackets, separated by commas.
pub open spec fn array_text(items: Seq<Seq<char>>) -> Seq<char> {
    seq!['['] + joined(items, seq![',']) + seq![']']
}

/// Calls `serde_json::to_string` on a string slice.
///
/// Trusted: the result is `serde_json`'s string literal for the slice.
/// Serialising a string slice into memory has no way to fail, so the fallback
/// for an error is never taken.
#[verifier::external_body]
pub(crate) fn json_string(value: &str) -> (text: String)
    ensures
        text@ == json_string_text(value@),
{
    serde_json::to_string(value).unwrap_or_default()
}

/// Writes one member of an object from its name and its encoded value.
pub fn write_member(name: &str, value: &str) -> (text: String)
    ensures
        text@ == member_text(name@, value@),
{
    let mut text = json_string(name);
    text.append(":");
    text.append(value);
    proof {
        reveal_strlit(":");
        assert(text@ =~= member_text(name@, value@));
    }
    text
}

/// Writes an object around members that are already written.
pub fn write_object(members: &Vec<String>) -> (text: String)
    ensures
        text@ == object_text(texts(members@)),
{
    let inner = join(members, ",");
    let mut text = String::from_str("{");
    text.append(inner.as_str());
    text.append("}");
    proof {
        reveal_strlit(",");
        reveal_strlit("{");
        reveal_strlit("}");
        assert(","@ =~= seq![',']);
        assert(text@ =~= object_text(texts(members@)));
    }
    text
}

/// Writes an array around items that are already encoded.
pub fn write_array(items: &Vec<String>) -> (text: String)
    ensures
        text@ == array_text(texts(items@)),
{
    let inner = join(items, ",");
    let mut text = String::from_str("[");
    text.append(inner.as_str());
    text.append("]");
    proof {
        reveal_strlit(",");
        reveal_strlit("[");
        reveal_strlit("]");
        assert(","@ =~= seq![',']);
        assert(text@ =~= array_text(texts(items@)));
    }
    text
}

} // verus!
