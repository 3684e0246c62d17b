//! JSON values, read and built through `serde_json`.
//!
//! The registry and the settings are JSON documents.  This module declares
//! `serde_json::Value` to the verifier, says what such a value holds, and
//! wraps the functions of `serde_json` that the documents are read and
//! changed with.  What the wrappers state of those functions is taken on
//! trust; everything built on them is proved from it.
//!
//! The members of an object are modelled as a map without an order.  That
//! fits `serde_json` as long as its `preserve_order` feature is off, which
//! is how this crate builds it: objects then keep their members sorted by
//! key, so the text of a value depends on nothing but what the value holds.

use serde_json::Value;
use vstd::prelude::*;

verus! {

/// A JSON number: an integer, or a number written with a fraction or an
/// exponent, which is told apart by the bits of its binary form.
pub enum JsonNumber {
    /// An integer from -2^63 to 2^64 - 1.
    Integer(int),
    /// A number with a fraction or an exponent.
    Fraction(u64),
}

/// What a JSON value holds.
pub enum Json {
    /// `null`.
    Null,
    /// `true` or `false`.
    Bool(bool),
    /// A number.
    Number(JsonNumber),
    /// A text.
    Text(Seq<char>),
    /// A list of values.
    Array(Seq<Json>),
    /// Named values.
    Object(Map<Seq<char>, Json>),
}

#[verifier::external_type_specification]
#[verifier::external_body]
pub struct ExValue(serde_json::Value);

/// What `value` holds.
pub uninterp spec fn json_of(value: Value) -> Json;

/// The value that `serde_json::from_str` reads from `text`, if it reads one.
pub uninterp spec fn json_parse(text: Seq<char>) -> Option<Json>;

/// The text that `serde_json::to_string_pretty` writes for a value.
pub uninterp spec fn json_pretty(value: Json) -> Option<Seq<char>>;

/// The text that `serde_json::to_string` writes for a value.
pub uninterp spec fn json_compact(value: Json) -> Option<Seq<char>>;

/// The number that `serde_json::Number` reads from `text`, if it reads one.
pub uninterp spec fn json_number_parse(text: Seq<char>) -> Option<JsonNumber>;

/// What each of `values` holds.
pub open spec fn jsons_of(values: Seq<Value>) -> Seq<Json> {
    values.map_values(|value: Value| json_of(value))
}

/// What a list holds after a value was put at its end.
pub proof fn lemma_jsons_of_push(values: Seq<Value>, value: Value)
    ensures
        jsons_of(values.push(value)) == jsons_of(values).push(json_of(value)),
{
    assert(jsons_of(values.push(value)) =~= jsons_of(values).push(json_of(value)));
}

impl Json {
    /// The member `key` of an object; nothing else has members.
    pub open spec fn member(self, key: Seq<char>) -> Option<Json> {
        match self {
            Json::Object(members) => if members.contains_key(key) {
                Some(members[key])
            } else {
                None
            },
            _ => None,
        }
    }

    /// The text of a text value.
    pub open spec fn text(self) -> Option<Seq<char>> {
        match self {
            Json::Text(text) => Some(text),
            _ => None,
        }
    }

    /// The number of an integer value that fits in 64 bits with a sign.
    pub open spec fn integer(self) -> Option<i64> {
        match self {
            Json::Number(JsonNumber::Integer(n)) => if n <= i64::MAX {
                Some(n as i64)
            } else {
                None
            },
            _ => None,
        }
    }

    /// The items of an array.
    pub open spec fn items(self) -> Option<Seq<Json>> {
        match self {
            Json::Array(items) => Some(items),
            _ => None,
        }
    }

    /// An object with the member `key` set to `item`, the other members
    /// kept; a value that is no object is left as it is.
    pub open spec fn with_member(self, key: Seq<char>, item: Json) -> Json {
        match self {
            Json::Object(members) => Json::Object(members.insert(key, item)),
            other => other,
        }
    }

    /// The text member `key` of an object.
    pub open spec fn text_member(self, key: Seq<char>) -> Option<Seq<char>> {
        match self.member(key) {
            Some(value) => value.text(),
            None => None,
        }
    }
}

/// `serde_json::from_str`, reading a `Value`: the value that the text
/// spells, or nothing where the text is not one JSON value.
#[verifier::external_body]
pub(crate) fn parse(text: &str) -> (r: Option<Value>)
    ensures
        r is Some <==> json_parse(text@) is Some,
        r matches Some(value) ==> json_parse(text@) == Some(json_of(value)),
{
    match serde_json::from_str::<Value>(text) {
        Ok(value) => Some(value),
        Err(_) => None,
    }
}

/// `serde_json::to_string_pretty`, writing a `Value`: its text with two
/// spaces of indentation, which depends on what the value holds alone.
#[verifier::external_body]
pub(crate) fn to_pretty_text(value: &Value) -> (r: Option<String>)
    ensures
        r is Some <==> json_pretty(json_of(*value)) is Some,
        r matches Some(text) ==> json_pretty(json_of(*value)) == Some(text@),
{
    match serde_json::to_string_pretty(value) {
        Ok(text) => Some(text),
        Err(_) => None,
    }
}

/// `serde_json::to_string`, writing a `Value`: its text without white
/// space, which depends on what the value holds alone.
#[verifier::external_body]
pub(crate) fn to_compact_text(value: &Value) -> (r: Option<String>)
    ensures
        r is Some <==> json_compact(json_of(*value)) is Some,
        r matches Some(text) ==> json_compact(json_of(*value)) == Some(text@),
{
    match serde_json::to_string(value) {
        Ok(text) => Some(text),
        Err(_) => None,
    }
}

/// `Value::get` with a text as index: the member of that name, if the value
/// is an object that has one.
#[verifier::external_body]
pub(crate) fn member<'a>(value: &'a Value, key: &str) -> (r: Option<&'a Value>)
    ensures
        r is Some <==> json_of(*value).member(key@) is Some,
        r matches Some(found) ==> json_of(*value).member(key@) == Some(json_of(*found)),
{
    value.get(key)
}

/// `Value::as_str`: the text of a text value, nothing for any other.
#[verifier::external_body]
pub(crate) fn text_of<'a>(value: &'a Value) -> (r: Option<&'a str>)
    ensures
        r is Some <==> json_of(*value).text() is Some,
        r matches Some(text) ==> json_of(*value).text() == Some(text@),
{
    value.as_str()
}

/// `Value::as_i64`: the number of an integer value that fits in an `i64`,
/// nothing for any other value.
#[verifier::external_body]
pub(crate) fn integer_of(value: &Value) -> (r: Option<i64>)
    ensures
        r == json_of(*value).integer(),
{
    value.as_i64()
}

/// `Value::as_array`: the items of an array, nothing for any other value.
#[verifier::external_body]
pub(crate) fn items_of<'a>(value: &'a Value) -> (r: Option<&'a Vec<Value>>)
    ensures
        r is Some <==> json_of(*value).items() is Some,
        r matches Some(items) ==> json_of(*value).items() == Some(jsons_of(items@)),
{
    value.as_array()
}

/// `Value::is_object`: whether the value is an object.
#[verifier::external_body]
pub(crate) fn is_object(value: &Value) -> (r: bool)
    ensures
        r == (json_of(*value) is Object),
{
    value.is_object()
}

/// `Value::clone`: a value that holds what `value` holds.
#[verifier::external_body]
pub(crate) fn copy_of(value: &Value) -> (r: Value)
    ensures
        json_of(r) == json_of(*value),
{
    value.clone()
}

/// `Value::Array`: the array of the given items.
#[verifier::external_body]
pub(crate) fn array_of(items: Vec<Value>) -> (r: Value)
    ensures
        json_of(r) == Json::Array(jsons_of(items@)),
{
    Value::Array(items)
}

/// `Value::String`: the text value of the given text.
#[verifier::external_body]
pub(crate) fn text_value(text: String) -> (r: Value)
    ensures
        json_of(r) == Json::Text(text@),
{
    Value::String(text)
}

/// `Value::Bool`: the value `true` or `false`.
#[verifier::external_body]
pub(crate) fn bool_value(flag: bool) -> (r: Value)
    ensures
        json_of(r) == Json::Bool(flag),
{
    Value::Bool(flag)
}

/// `serde_json::Number`'s `from_str`, wrapped in `Value::Number`: the number
/// that the text spells, or nothing where it spells none.
#[verifier::external_body]
pub(crate) fn number_value(text: &str) -> (r: Option<Value>)
    ensures
        r is Some <==> json_number_parse(text@) is Some,
        r matches Some(value) ==> Some(json_of(value)) == (match json_number_parse(text@) {
            Some(number) => Some(Json::Number(number)),
            None => None,
        }),
{
    match text.parse::<serde_json::Number>() {
        Ok(number) => Some(Value::Number(number)),
        Err(_) => None,
    }
}

/// `serde_json::Map::new`, wrapped in `Value::Object`: the object without
/// members.
#[verifier::external_body]
pub(crate) fn empty_object() -> (r: Value)
    ensures
        json_of(r) == Json::Object(Map::<Seq<char>, Json>::empty()),
{
    Value::Object(serde_json::Map::new())
}

/// `serde_json::Map::insert`, on the members of an object: the member `key`
/// becomes `item`, whether or not there was one, and the other members stay.
/// A value that is no object is left as it is.
#[verifier::external_body]
pub(crate) fn set_member(value: &mut Value, key: &str, item: Value)
    ensures
        json_of(*final(value)) == json_of(*old(value)).with_member(key@, json_of(item)),
{
    if let Value::Object(members) = value {
        members.insert(key.to_owned(), item);
    }
}

} // verus!
