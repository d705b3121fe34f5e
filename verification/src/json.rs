//! JSON texts that the store reads and writes.

use crate::text::texts;
use vstd::prelude::*;

verus! {

/// `serde_json`'s error, which the store never looks into.
#[verifier::external_type_specification]
#[verifier::external_body]
pub struct ExJsonError(serde_json::Error);

/// A value of a flat JSON object.
#[derive(Debug, PartialEq, Eq)]
pub enum JsonScalar {
    Text(String),
    Count(u64),
}

/// What a `JsonScalar` stands for.
pub enum JsonScalarView {
    Text(Seq<char>),
    Count(u64),
}

impl View for JsonScalar {
    type V = JsonScalarView;

    open spec fn view(&self) -> JsonScalarView {
        match self {
            JsonScalar::Text(text) => JsonScalarView::Text(text@),
            JsonScalar::Count(count) => JsonScalarView::Count(*count),
        }
    }
}

/// The fields of a flat JSON object.
pub open spec fn json_fields(fields: Seq<(String, JsonScalar)>) -> Seq<(Seq<char>, JsonScalarView)> {
    Seq::new(fields.len(), |i: int| (fields[i].0@, fields[i].1@))
}

/// The text that `serde_json::to_string` gives for an object with these fields.
pub uninterp spec fn json_object(fields: Seq<(Seq<char>, JsonScalarView)>) -> Seq<char>;

/// The text that `serde_json::to_string` gives for a list of strings.
pub uninterp spec fn json_list(items: Seq<Seq<char>>) -> Seq<char>;

/// The strings that `serde_json::from_str` reads from a text, or nothing where
/// the text is not a JSON list of strings.
pub uninterp spec fn json_strings(text: Seq<char>) -> Option<Seq<Seq<char>>>;

/// The string that the object which `serde_json::from_str` reads from a text
/// has under a key, or nothing where there is none.
pub uninterp spec fn json_member(text: Seq<char>, key: Seq<char>) -> Option<Seq<char>>;

/// Whether `serde_json::from_str` reads a value from a text.
pub uninterp spec fn json_valid(text: Seq<char>) -> bool;

/// `serde_json::to_string` of an object. It succeeds, for the keys are strings
/// and no value refuses to be written. The text is named by `json_object`.
#[verifier::external_body]
pub(crate) fn object_text(fields: &Vec<(String, JsonScalar)>) -> (reply: Result<
    String,
    serde_json::Error,
>)
    ensures
        reply is Ok,
        reply->Ok_0@ == json_object(json_fields(fields@)),
{
    let mut object = serde_json::Map::new();
    for (key, value) in fields {
        let value = match value {
            JsonScalar::Text(text) => serde_json::Value::from(text.clone()),
            JsonScalar::Count(count) => serde_json::Value::from(*count),
        };
        object.insert(key.clone(), value);
    }
    serde_json::to_string(&object)
}

/// `serde_json::to_string` of a list of strings. It succeeds, for no string
/// refuses to be written. The text is named by `json_list`; reading it back gives
/// the list that was written.
#[verifier::external_body]
pub(crate) fn list_text(items: &Vec<String>) -> (reply: Result<String, serde_json::Error>)
    ensures
        reply is Ok,
        reply->Ok_0@ == json_list(texts(items@)),
        json_strings(reply->Ok_0@) == Some(texts(items@)),
{
    serde_json::to_string(items)
}

/// `serde_json::from_str` into a list of strings. The result is named by
/// `json_strings`.
#[verifier::external_body]
pub(crate) fn parse_list(text: &str) -> (reply: Result<Vec<String>, serde_json::Error>)
    ensures
        match reply {
            Ok(items) => json_strings(text@) == Some(texts(items@)),
            Err(_) => json_strings(text@) is None,
        },
{
    serde_json::from_str(text)
}

/// `serde_json::from_str` into a value, then `Value::get` and `Value::as_str`.
/// The result is named by `json_member`.
#[verifier::external_body]
pub(crate) fn member_text(text: &str, key: &str) -> (member: Option<String>)
    ensures
        crate::text::optional_text(member) == json_member(text@, key@),
{
    let value: serde_json::Value = serde_json::from_str(text).ok()?;
    value.get(key)?.as_str().map(str::to_owned)
}

/// `serde_json::from_str` into a value, of which only the success is read. The
/// result is named by `json_valid`.
#[verifier::external_body]
pub(crate) fn is_json(text: &str) -> (valid: bool)
    ensures
        valid == json_valid(text@),
{
    serde_json::from_str::<serde_json::Value>(text).is_ok()
}

} // verus!
