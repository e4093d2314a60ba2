//! A JSON document held as plain values, and typed access to the members of
//! a JSON object.
//!
//! The text is parsed by `serde_json`; everything after that is read from
//! [`JsonValue`].

use crate::text::same_text;
use vstd::prelude::*;

verus! {

/// A JSON number, kept as the integers it can be read as. A number with a
/// fraction or an exponent can be read as neither.
#[derive(Debug, Clone, Copy, PartialEq, Eq)]
pub struct JsonNumber {
    /// The number as an unsigned integer, where it is one that fits `u64`.
    pub unsigned: Option<u64>,
    /// The number as a signed integer, where it is one that fits `i64`.
    pub signed: Option<i64>,
}

/// A JSON document.
#[derive(Debug, PartialEq, Eq)]
pub enum JsonValue {
    Null,
    Bool(bool),
    Number(JsonNumber),
    String(String),
    Array(Vec<JsonValue>),
    /// The members of an object, each name once.
    Object(Vec<(String, JsonValue)>),
}

/// `serde_json::Value`, of which nothing is known here but that it exists.
#[verifier::external_type_specification]
#[verifier::external_body]
pub struct ExSerdeValue(serde_json::Value);

/// The document that `serde_json::from_str::<serde_json::Value>` reads from a
/// text, or `None` where it reports an error.
pub uninterp spec fn json_document(text: Seq<char>) -> Option<JsonValue>;

/// Calls `serde_json::from_str::<serde_json::Value>` and rebuilds the value it
/// returns as a [`JsonValue`]. The contract only gives the outcome its name:
/// it is a function of the text alone. The parser's error is dropped.
#[verifier::external_body]
pub(crate) fn parse_json(text: &str) -> (document: Option<JsonValue>)
    ensures
        document == json_document(text@),
{
    serde_json::from_str::<serde_json::Value>(text).ok().map(json_from_serde)
}

/// Rebuilds a `serde_json::Value` as a [`JsonValue`], variant by variant. A
/// number is read through `Number::as_u64` and `Number::as_i64`; the members
/// of an object come in the order in which `serde_json::Map` hands them out.
/// Nothing is claimed of the result here: `parse_json` names it.
#[verifier::external_body]
fn json_from_serde(value: serde_json::Value) -> JsonValue {
    match value {
        serde_json::Value::Null => JsonValue::Null,
        serde_json::Value::Bool(b) => JsonValue::Bool(b),
        serde_json::Value::Number(n) => JsonValue::Number(
            JsonNumber { unsigned: n.as_u64(), signed: n.as_i64() },
        ),
        serde_json::Value::String(s) => JsonValue::String(s),
        serde_json::Value::Array(items) => JsonValue::Array(
            items.into_iter().map(json_from_serde).collect(),
        ),
        serde_json::Value::Object(members) => JsonValue::Object(
            members.into_iter().map(|(name, item)| (name, json_from_serde(item))).collect(),
        ),
    }
}

/// The value of the first member called `key` at or after position `from`.
pub open spec fn member_from(
    members: Seq<(String, JsonValue)>,
    key: Seq<char>,
    from: int,
) -> Option<JsonValue>
    decreases members.len() - from,
{
    if from < 0 || from >= members.len() {
        None
    } else if members[from].0@ == key {
        Some(members[from].1)
    } else {
        member_from(members, key, from + 1)
    }
}

/// Looks up the first member called `key`.
fn find_member<'a>(members: &'a Vec<(String, JsonValue)>, key: &str) -> (found: Option<&'a JsonValue>)
    ensures
        found == match member_from(members@, key@, 0) {
            Some(value) => Some(&value),
            None => None,
        },
{
    let mut i: usize = 0;
    while i < members.len()
        invariant
            i <= members.len(),
            member_from(members@, key@, 0) == member_from(members@, key@, i as int),
        decreases members.len() - i,
    {
        if same_text(members[i].0.as_str(), key) {
            return Some(&members[i].1);
        }
        i += 1;
    }
    None
}

impl JsonValue {
    /// The value of the member called `key`, where `self` is an object that
    /// has one.
    pub open spec fn member(self, key: Seq<char>) -> Option<JsonValue> {
        match self {
            JsonValue::Object(members) => member_from(members@, key, 0),
            _ => None,
        }
    }

    /// Whether the member called `key` is missing. A value that is no object
    /// has no members.
    pub open spec fn lacks(self, key: Seq<char>) -> bool {
        self.member(key) is None
    }

    /// Whether the member called `key` is missing or `null`.
    pub open spec fn absent_at(self, key: Seq<char>) -> bool {
        self.member(key) is None || self.member(key) == Some(JsonValue::Null)
    }

    /// Whether the document is an object.
    pub fn is_object(&self) -> (object: bool)
        ensures
            object == (*self is Object),
    {
        match self {
            JsonValue::Object(_) => true,
            _ => false,
        }
    }

    /// Looks up the member called `key`.
    pub fn get(&self, key: &str) -> (found: Option<&JsonValue>)
        ensures
            found == match self.member(key@) {
                Some(value) => Some(&value),
                None => None,
            },
    {
        match self {
            JsonValue::Object(members) => find_member(members, key),
            _ => None,
        }
    }

    /// Whether the member called `key` is missing or `null`.
    pub fn is_absent(&self, key: &str) -> (absent: bool)
        ensures
            absent == self.absent_at(key@),
    {
        match self.get(key) {
            None => true,
            Some(JsonValue::Null) => true,
            Some(_) => false,
        }
    }

    /// Whether the member called `key` is missing.
    pub fn is_missing(&self, key: &str) -> (missing: bool)
        ensures
            missing == self.lacks(key@),
    {
        self.get(key).is_none()
    }
}

} // verus!
