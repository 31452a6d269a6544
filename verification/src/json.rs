//! JSON documents, as the parser hands them over.
//!
//! The text of a document is parsed by `serde_json`. What it yields is moved
//! into a value of this module's own type, which the decoders then read.

use vstd::prelude::*;

verus! {

/// A number of a document: its value as a signed 64-bit integer where the
/// document wrote an integer in that range, and the bit pattern of its value
/// as a double-precision number.
#[derive(Debug, PartialEq, Eq)]
pub struct JsonNumber {
    pub integer: Option<i64>,
    pub double_bits: Option<u64>,
}

/// One member of an object.
#[derive(Debug, PartialEq, Eq)]
pub struct Member {
    pub key: String,
    pub value: Json,
}

/// A JSON value. The members of an object stand in the order in which the
/// parser's map yields them.
#[derive(Debug, PartialEq, Eq)]
pub enum Json {
    Null,
    Bool(bool),
    Number(JsonNumber),
    Text(String),
    Array(Vec<Json>),
    Object(Vec<Member>),
}

#[verifier::external_type_specification]
#[verifier::external_body]
pub struct ExValue(serde_json::Value);

#[verifier::external_type_specification]
#[verifier::external_body]
pub struct ExError(serde_json::Error);

/// The value that a text parses to as one JSON document, or `None` where the
/// text is not one.
pub uninterp spec fn parsed_document(text: Seq<char>) -> Option<Json>;

/// Moves a `serde_json::Value` into a `Json`, variant by variant: a number
/// by `Number::as_i64` and by the bits of `Number::as_f64`, the items of an
/// array and the members of an object each in the order of its iterator.
/// Nothing is claimed of the result.
#[verifier::external_body]
fn json_of_value(value: serde_json::Value) -> Json {
    match value {
        serde_json::Value::Null => Json::Null,
        serde_json::Value::Bool(b) => Json::Bool(b),
        serde_json::Value::Number(n) => Json::Number(
            JsonNumber { integer: n.as_i64(), double_bits: n.as_f64().map(|x| x.to_bits()) },
        ),
        serde_json::Value::String(s) => Json::Text(s),
        serde_json::Value::Array(items) => Json::Array(items.into_iter().map(json_of_value).collect()),
        serde_json::Value::Object(map) => Json::Object(
            map.into_iter().map(|(key, v)| Member { key, value: json_of_value(v) }).collect(),
        ),
    }
}

/// Calls `serde_json::from_str` for a `serde_json::Value`. The claim is
/// that the outcome depends on the text alone: a value is the parsed
/// document of the text, and an error comes exactly where the text has none.
#[verifier::external_body]
fn parse_text(text: &str) -> (r: Result<Json, serde_json::Error>)
    ensures
        r matches Ok(json) ==> parsed_document(text@) == Some(json),
        r is Err ==> parsed_document(text@) is None,
{
    serde_json::from_str::<serde_json::Value>(text).map(json_of_value)
}

/// Parses one document. `None` means that the text is not a JSON document.
pub fn parse_document(text: &str) -> (r: Option<Json>)
    ensures
        r == parsed_document(text@),
{
    match parse_text(text) {
        Ok(json) => Some(json),
        Err(_) => None,
    }
}

/// The value of the first member with the given key among the members from
/// `start` on.
pub open spec fn lookup_from(members: Seq<Member>, key: Seq<char>, start: int) -> Option<Json>
    decreases members.len() - start,
{
    if start < 0 || start >= members.len() {
        None
    } else if members[start].key@ == key {
        Some(members[start].value)
    } else {
        lookup_from(members, key, start + 1)
    }
}

/// The value of the first member with the given key.
pub open spec fn lookup(members: Seq<Member>, key: Seq<char>) -> Option<Json> {
    lookup_from(members, key, 0)
}

/// Finds the value of the first member with the given key.
pub fn find_member<'a>(members: &'a Vec<Member>, key: &str) -> (r: Option<&'a Json>)
    ensures
        match r {
            Some(value) => lookup(members@, key@) == Some(*value),
            None => lookup(members@, key@) is None,
        },
{
    let wanted: String = key.to_owned();
    let mut i: usize = 0;
    while i < members.len()
        invariant
            i <= members@.len(),
            wanted@ == key@,
            lookup(members@, key@) == lookup_from(members@, key@, i as int),
        decreases members@.len() - i,
    {
        if members[i].key == wanted {
            return Some(&members[i].value);
        }
        i += 1;
    }
    None
}

impl Json {
    /// The value of the first member with the given key, where the value is
    /// an object that has one.
    pub open spec fn member(self, key: Seq<char>) -> Option<Json> {
        match self {
            Json::Object(members) => lookup(members@, key),
            _ => None,
        }
    }

    /// Finds the value of the first member with the given key. There is none
    /// where the value is no object.
    pub fn get<'a>(&'a self, key: &str) -> (r: Option<&'a Json>)
        ensures
            match r {
                Some(value) => self.member(key@) == Some(*value),
                None => self.member(key@) is None,
            },
    {
        match self {
            Json::Object(members) => find_member(members, key),
            _ => None,
        }
    }
}

} // verus!
