//! JSON documents as `serde_json` parses them, and the mathematical value
//! that each stands for.

use vstd::prelude::*;
use crate::config::opt_text;

verus! {

/// `serde_json::Value`, seen through [`json_view`].
#[verifier::external_type_specification]
#[verifier::external_body]
pub struct ExJsonValue(serde_json::Value);

/// A JSON value.
pub enum JsonView {
    Null,
    Bool(bool),
    /// A number that is held as a non-negative integer below 2^64: one
    /// written without sign, fraction or exponent.
    Unsigned(u64),
    /// Any other number.
    Number,
    Text(Seq<char>),
    Array(Seq<JsonView>),
    Object(Map<Seq<char>, JsonView>),
}

impl JsonView {
    /// The member of an object under a key; `None` where the value is no
    /// object or has no such member.
    pub open spec fn member(self, key: Seq<char>) -> Option<JsonView> {
        match self {
            JsonView::Object(members) => if members.contains_key(key) {
                Some(members[key])
            } else {
                None
            },
            _ => None,
        }
    }

    /// The text of a value that is a string.
    pub open spec fn text(self) -> Option<Seq<char>> {
        match self {
            JsonView::Text(t) => Some(t),
            _ => None,
        }
    }

    /// The number of a value that is held as a non-negative integer below 2^64.
    pub open spec fn unsigned(self) -> Option<u64> {
        match self {
            JsonView::Unsigned(n) => Some(n),
            _ => None,
        }
    }

    /// The items of a value that is an array.
    pub open spec fn items(self) -> Option<Seq<JsonView>> {
        match self {
            JsonView::Array(items) => Some(items),
            _ => None,
        }
    }

    /// The text of the member under a key, where that member is a string.
    pub open spec fn member_text(self, key: Seq<char>) -> Option<Seq<char>> {
        match self.member(key) {
            Some(m) => m.text(),
            None => None,
        }
    }
}

/// The JSON value that a `serde_json::Value` holds.
pub uninterp spec fn json_view(value: serde_json::Value) -> JsonView;

/// The JSON value that a text denotes; `None` where the text is not valid JSON.
pub uninterp spec fn json_parsed(text: Seq<char>) -> Option<JsonView>;

/// The JSON values that a sequence of `serde_json::Value` holds.
pub open spec fn json_views(values: Seq<serde_json::Value>) -> Seq<JsonView> {
    Seq::new(values.len(), |i: int| json_view(values[i]))
}

/// `serde_json::Value::get` with a string key: the member of an object
/// under that key, and nothing for any other value.
#[verifier::external_body]
pub(crate) fn member<'a>(value: &'a serde_json::Value, key: &str) -> (r: Option<
    &'a serde_json::Value,
>)
    ensures
        match r {
            Some(m) => json_view(*value).member(key@) == Some(json_view(*m)),
            None => json_view(*value).member(key@) is None,
        },
{
    value.get(key)
}

/// `serde_json::Value::as_str`: the text of a string, and nothing for any other value.
#[verifier::external_body]
pub(crate) fn text_of(value: &serde_json::Value) -> (r: Option<String>)
    ensures
        opt_text(r) == json_view(*value).text(),
{
    value.as_str().map(|s| s.to_string())
}

/// `serde_json::Value::as_u64`: the number where the value is an integer
/// that fits, and nothing for any other value.
#[verifier::external_body]
pub(crate) fn number_of(value: &serde_json::Value) -> (r: Option<u64>)
    ensures
        r == json_view(*value).unsigned(),
{
    value.as_u64()
}

/// `serde_json::Value::as_array`: the items of an array, and nothing for any other value.
#[verifier::external_body]
pub(crate) fn items_of<'a>(value: &'a serde_json::Value) -> (r: Option<
    &'a Vec<serde_json::Value>,
>)
    ensures
        match r {
            Some(items) => json_view(*value).items() == Some(json_views(items@)),
            None => json_view(*value).items() is None,
        },
{
    value.as_array()
}

/// `serde_json::from_str` for a `Value`: the value that the text denotes,
/// or the parser's message where the text is not valid JSON.
#[verifier::external_body]
pub(crate) fn parse(text: &str) -> (r: Result<serde_json::Value, String>)
    ensures
        match r {
            Ok(v) => json_parsed(text@) == Some(json_view(v)),
            Err(_) => json_parsed(text@) is None,
        },
{
    serde_json::from_str::<serde_json::Value>(text).map_err(|e| e.to_string())
}

/// The text of the member of an object under a key, where that member is a string.
pub fn text_at(value: &serde_json::Value, key: &str) -> (r: Option<String>)
    ensures
        opt_text(r) == json_view(*value).member_text(key@),
{
    match member(value, key) {
        Some(m) => text_of(m),
        None => None,
    }
}

} // verus!
