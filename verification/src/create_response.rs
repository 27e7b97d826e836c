//! The row formatter: one post in, one unit of response text out.
//!
//! A post is first projected onto the record that a response shows, with the
//! publication time rendered in UTC.  The record is then laid out as a list of
//! named fields, and that one list is written either as a line of text or as
//! a JSON object.

use crate::calendar::{formatted_utc, representable, utc_minute, DISPLAY_FORMAT};
use crate::data_structs::{ApiResponse, ApiResponseView, Post, PostView};
use crate::json::{json_string, json_string_text, member_text, object_text, write_member, write_object};
use crate::text::{
    integer_text, integer_to_string, join, joined, lemma_occurs_in_middle,
    lemma_part_occurs_in_joined, occurs_in, texts,
};
use vstd::prelude::*;

verus! {

/// The two ways a response can be written.
#[derive(Clone, Copy, Debug)]
pub enum ResponseFormat {
    /// One line of text for each post.
    Text,
    /// One JSON object for each post.
    Json,
}

impl ResponseFormat {
    /// The format that a name stands for.
    pub open spec fn named(name: Seq<char>) -> Option<ResponseFormat> {
        if name == "text"@ {
            Some(ResponseFormat::Text)
        } else if name == "json"@ {
            Some(ResponseFormat::Json)
        } else {
            None
        }
    }

    /// Reads the name of a format: `text` or `json`, in lower case.
    pub fn from_name(name: &str) -> (format: Option<ResponseFormat>)
        ensures
            format == ResponseFormat::named(name@),
    {
        let name = String::from_str(name);
        if name == String::from_str("text") {
            Some(ResponseFormat::Text)
        } else if name == String::from_str("json") {
            Some(ResponseFormat::Json)
        } else {
            None
        }
    }
}

/// The publication time of a post lies outside the calendar, so its date
/// cannot be shown.
#[derive(Clone, Copy, Debug)]
pub struct TimestampOutOfRange {
    /// The offending publication time.
    pub timestamp: i64,
}

/// One named field of a response record.
pub struct Field {
    /// The name of the field.
    pub name: &'static str,
    /// The value: a numeral, or the characters of a string.
    pub value: String,
    /// Whether the value is a string, which JSON writes as a quoted literal.
    pub quoted: bool,
}

/// A field as a mathematical value.
pub struct FieldView {
    pub name: Seq<char>,
    pub value: Seq<char>,
    pub quoted: bool,
}

impl View for Field {
    type V = FieldView;

    open spec fn view(&self) -> FieldView {
        FieldView { name: self.name@, value: self.value@, quoted: self.quoted }
    }
}

impl FieldView {
    /// A field that holds a number.
    pub open spec fn number(name: Seq<char>, value: Seq<char>) -> FieldView {
        FieldView { name, value, quoted: false }
    }

    /// A field that holds a string.
    pub open spec fn string(name: Seq<char>, value: Seq<char>) -> FieldView {
        FieldView { name, value, quoted: true }
    }

    /// The field in a line of text: the name, a colon and a space, the value
    /// as it is.
    pub open spec fn text_part(self) -> Seq<char> {
        self.name + seq![':', ' '] + self.value
    }

    /// The value in JSON: a numeral as it is, a string as a literal.
    pub open spec fn json_value(self) -> Seq<char> {
        if self.quoted {
            json_string_text(self.value)
        } else {
            self.value
        }
    }

    /// The field as a member of a JSON object.
    pub open spec fn json_member(self) -> Seq<char> {
        member_text(self.name, self.json_value())
    }
}

/// The views of a list of fields, in order.
pub open spec fn field_views(fields: Seq<Field>) -> Seq<FieldView> {
    Seq::new(fields.len(), |i: int| fields[i]@)
}

/// Each field as it stands in a line of text.
pub open spec fn text_parts(fields: Seq<FieldView>) -> Seq<Seq<char>> {
    Seq::new(fields.len(), |i: int| fields[i].text_part())
}

/// Each field as a member of a JSON object.
pub open spec fn json_members(fields: Seq<FieldView>) -> Seq<Seq<char>> {
    Seq::new(fields.len(), |i: int| fields[i].json_member())
}

/// The fields on one line, separated by a comma and a space.
pub open spec fn text_line(fields: Seq<FieldView>) -> Seq<char> {
    joined(text_parts(fields), seq![',', ' '])
}

/// The fields as one JSON object, in the order given.
pub open spec fn json_object(fields: Seq<FieldView>) -> Seq<char> {
    object_text(json_members(fields))
}

impl ApiResponseView {
    /// The fields of the record, in the order in which every response lists
    /// them.
    pub open spec fn fields(self) -> Seq<FieldView> {
        seq![
            FieldView::number("id"@, integer_text(self.id)),
            FieldView::string("date"@, self.date),
            FieldView::string("url"@, self.url),
            FieldView::string("subreddit"@, self.subreddit),
            FieldView::string("title"@, self.title),
            FieldView::string("author"@, self.author),
            FieldView::string("url_contained"@, self.url_contained),
            FieldView::number("sentiment"@, self.sentiment),
            FieldView::string("content"@, self.content),
        ]
    }

    /// The record written in `format`.
    pub open spec fn rendered(self, format: ResponseFormat) -> Seq<char> {
        match format {
            ResponseFormat::Text => text_line(self.fields()),
            ResponseFormat::Json => json_object(self.fields()),
        }
    }
}

impl PostView {
    /// The record that a response shows of the post.
    pub open spec fn shown(self) -> ApiResponseView {
        self.shown_with(formatted_utc(self.published_at, DISPLAY_FORMAT@))
    }

    /// The post written in `format`.
    pub open spec fn rendered(self, format: ResponseFormat) -> Seq<char> {
        self.shown().rendered(format)
    }
}

impl Field {
    /// Writes the field as it stands in a line of text.
    pub fn to_text_part(&self) -> (text: String)
        ensures
            text@ == self@.text_part(),
    {
        let mut text = String::from_str(self.name);
        text.append(": ");
        text.append(self.value.as_str());
        proof {
            reveal_strlit(": ");
            assert(": "@ =~= seq![':', ' ']);
        }
        text
    }

    /// Writes the field as a member of a JSON object.
    pub fn to_json_member(&self) -> (text: String)
        ensures
            text@ == self@.json_member(),
    {
        if self.quoted {
            let literal = json_string(self.value.as_str());
            write_member(self.name, literal.as_str())
        } else {
            write_member(self.name, self.value.as_str())
        }
    }
}

/// Writes a list of fields as one line of text.
pub fn write_text_line(fields: &Vec<Field>) -> (text: String)
    ensures
        text@ == text_line(field_views(fields@)),
{
    let mut parts: Vec<String> = Vec::new();
    let mut i: usize = 0;
    while i < fields.len()
        invariant
            i <= fields.len(),
            parts@.len() == i,
            forall|k: int| 0 <= k < i ==> (#[trigger] parts@[k])@ == fields@[k]@.text_part(),
        decreases fields.len() - i,
    {
        parts.push(fields[i].to_text_part());
        i += 1;
    }
    let text = join(&parts, ", ");
    proof {
        reveal_strlit(", ");
        assert(", "@ =~= seq![',', ' ']);
        assert(texts(parts@) =~= text_parts(field_views(fields@)));
    }
    text
}

/// Writes a list of fields as one JSON object.
pub fn write_json_object(fields: &Vec<Field>) -> (text: String)
    ensures
        text@ == json_object(field_views(fields@)),
{
    let mut members: Vec<String> = Vec::new();
    let mut i: usize = 0;
    while i < fields.len()
        invariant
            i <= fields.len(),
            members@.len() == i,
            forall|k: int| 0 <= k < i ==> (#[trigger] members@[k])@ == fields@[k]@.json_member(),
        decreases fields.len() - i,
    {
        members.push(fields[i].to_json_member());
        i += 1;
    }
    proof {
        assert(texts(members@) =~= json_members(field_views(fields@)));
    }
    write_object(&members)
}

impl ApiResponse {
    /// Lays the record out as its list of fields.
    pub fn fields(&self) -> (fields: Vec<Field>)
        ensures
            field_views(fields@) == self@.fields(),
    {
        let mut fields: Vec<Field> = Vec::new();
        fields.push(Field { name: "id", value: integer_to_string(self.id), quoted: false });
        fields.push(Field { name: "date", value: self.date.clone(), quoted: true });
        fields.push(Field { name: "url", value: self.url.clone(), quoted: true });
        fields.push(Field { name: "subreddit", value: self.subreddit.clone(), quoted: true });
        fields.push(Field { name: "title", value: self.title.clone(), quoted: true });
        fields.push(Field { name: "author", value: self.author.clone(), quoted: true });
        fields.push(
            Field { name: "url_contained", value: self.url_contained.clone(), quoted: true },
        );
        fields.push(
            Field {
                name: "sentiment",
                value: String::from_str(self.sentiment.as_str()),
                quoted: false,
            },
        );
        fields.push(Field { name: "content", value: self.content.clone(), quoted: true });
        assert(field_views(fields@) =~= self@.fields());
        fields
    }

    /// Writes the record in `format`.
    pub fn render(&self, format: ResponseFormat) -> (text: String)
        ensures
            text@ == self@.rendered(format),
    {
        let fields = self.fields();
        match format {
            ResponseFormat::Text => write_text_line(&fields),
            ResponseFormat::Json => write_json_object(&fields),
        }
    }
}

/// Writes one post in `format`.
///
/// The publication time is shown in UTC as day-month-year, hour:minute.  A
/// post whose publication time lies outside the calendar cannot be written;
/// every other post can.
pub fn create_response(row: &Post, format: ResponseFormat) -> (response: Result<
    String,
    TimestampOutOfRange,
>)
    ensures
        response is Ok <==> representable(row.published_at as int),
        response matches Ok(text) ==> text@ == row@.rendered(format),
        response matches Err(error) ==> error.timestamp == row.published_at,
{
    match utc_minute(row.published_at) {
        Some(date) => Ok(ApiResponse::from_post(row, date).render(format)),
        None => Err(TimestampOutOfRange { timestamp: row.published_at }),
    }
}

/// Both ways of writing a post show the same fields with the same values.
///
/// Take any field of the record that a response shows of a post: the key, the
/// rendered publication time, the score or any other.  The line of text holds
/// its name and its value as it is, and the JSON object holds its name and its
/// value as JSON encodes it.
pub proof fn lemma_both_formats_show_every_field(post: PostView, i: int)
    requires
        0 <= i < post.shown().fields().len(),
    ensures
        occurs_in(post.shown().fields()[i].text_part(), post.rendered(ResponseFormat::Text)),
        occurs_in(post.shown().fields()[i].json_member(), post.rendered(ResponseFormat::Json)),
{
    let fields = post.shown().fields();
    lemma_part_occurs_in_joined(text_parts(fields), seq![',', ' '], i);
    lemma_part_occurs_in_joined(json_members(fields), seq![','], i);
    lemma_occurs_in_middle(
        json_members(fields)[i],
        seq!['{'],
        joined(json_members(fields), seq![',']),
        seq!['}'],
    );
}

/// The fields that a response shows hold what the post holds: the rendered
/// publication time under `date`, and every other value unchanged under its
/// own name.
pub proof fn lemma_fields_hold_the_post(post: PostView)
    ensures
        post.shown().fields() == seq![
            FieldView::number("id"@, integer_text(post.id)),
            FieldView::string("date"@, formatted_utc(post.published_at, DISPLAY_FORMAT@)),
            FieldView::string("url"@, post.url),
            FieldView::string("subreddit"@, post.subreddit),
            FieldView::string("title"@, post.title),
            FieldView::string("author"@, post.author),
            FieldView::string("url_contained"@, post.contained_url),
            FieldView::number("sentiment"@, post.sentiment),
            FieldView::string("content"@, post.content),
        ],
{
}

} // verus!
