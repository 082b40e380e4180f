//! Reading JSON trees held by `serde_json`.

use serde_json::Value;
use vstd::prelude::*;

verus! {

/// A JSON value as mathematics. A number is the text that it is written as.
pub enum Json {
    Null,
    Bool(bool),
    Number(Seq<char>),
    Text(Seq<char>),
    Array(Seq<Json>),
    Object(Map<Seq<char>, Json>),
}

impl Json {
    /// The member called `key`: only objects have members.
    pub open spec fn member(self, key: Seq<char>) -> Option<Json> {
        match self {
            Json::Object(members) => if members.contains_key(key) {
                Some(members[key])
            } else {
                None
            },
            _ => None,
        }
    }

    /// The characters of a string value.
    pub open spec fn text(self) -> Option<Seq<char>> {
        match self {
            Json::Text(chars) => Some(chars),
            _ => None,
        }
    }

    /// The elements of an array value.
    pub open spec fn elements(self) -> Option<Seq<Json>> {
        match self {
            Json::Array(items) => Some(items),
            _ => None,
        }
    }
}

/// `serde_json::Value`, which is read through the functions below only.
#[verifier::external_type_specification]
#[verifier::external_body]
pub struct ExValue(serde_json::Value);

/// The tree that a `serde_json::Value` holds: the members of an object by key, the elements
/// of an array in order, the characters of a string, the text of a number.
pub uninterp spec fn json_of(value: serde_json::Value) -> Json;

/// `serde_json::Value::get` with a string key: the member of that name of an object, and
/// nothing for an object without it or for any other value.
#[verifier::external_body]
pub(crate) fn member<'a>(value: &'a Value, key: &str) -> (found: Option<&'a Value>)
    ensures
        match found {
            Some(inner) => json_of(*value).member(key@) == Some(json_of(*inner)),
            None => json_of(*value).member(key@) is None,
        },
{
    value.get(key)
}

/// `serde_json::Value::as_str`: the characters of a string value, nothing for any other.
pub assume_specification[ serde_json::Value::as_str ](value: &Value) -> (found: Option<&str>)
    ensures
        match found {
            Some(chars) => json_of(*value).text() == Some(chars@),
            None => json_of(*value).text() is None,
        },
;

/// `serde_json::Value::as_array`: the elements of an array value in order, nothing for
/// any other.
pub assume_specification[ serde_json::Value::as_array ](value: &Value) -> (found: Option<
    &Vec<Value>,
>)
    ensures
        match found {
            Some(items) => json_of(*value).elements() == Some(
                items@.map_values(|item: Value| json_of(item)),
            ),
            None => json_of(*value).elements() is None,
        },
;

/// `serde_json::Value::Null`, which holds null.
#[verifier::external_body]
pub(crate) fn null() -> (value: &'static Value)
    ensures
        json_of(*value) == Json::Null,
{
    &Value::Null
}

/// `serde_json::Value::default`: null.
#[verifier::external_body]
pub(crate) fn default_value() -> (value: Value)
    ensures
        json_of(value) == Json::Null,
{
    Value::default()
}

/// The member called `key` of `value`, where it is a string.
pub fn text_member<'a>(value: &'a Value, key: &str) -> (found: Option<&'a str>)
    ensures
        match json_of(*value).member(key@) {
            Some(inner) => match inner.text() {
                Some(chars) => found is Some && found->0@ == chars,
                None => found is None,
            },
            None => found is None,
        },
{
    match member(value, key) {
        Some(inner) => inner.as_str(),
        None => None,
    }
}

} // verus!
