//! JSON documents, read and written by `serde_json`.
//!
//! The documents themselves stay values of `serde_json::Value`. This module
//! gives such a value a mathematical model, [`Json`], and states over that
//! model what each call into `serde_json` does. Nothing here is proved: the
//! contracts are taken from the source of `serde_json`.

use serde_json::Value;
use vstd::prelude::*;

verus! {

/// `serde_json::Value`: a JSON document. What it holds is [`json_model`].
#[verifier::external_type_specification]
#[verifier::external_body]
pub struct ExValue(serde_json::Value);

/// `serde_json::Number`: a JSON number, an integer or a fraction.
#[verifier::external_type_specification]
#[verifier::external_body]
pub struct ExNumber(serde_json::Number);

/// `serde_json::Error`: why a text could not be read. Nothing is known of
/// what it holds.
#[verifier::external_type_specification]
#[verifier::external_body]
pub struct ExError(serde_json::Error);

/// A JSON document as a tree. An object maps each of its keys to one member;
/// a number is kept as `serde_json` holds it.
pub enum Json {
    Null,
    Bool(bool),
    Number(serde_json::Number),
    Text(Seq<char>),
    Array(Seq<Json>),
    Object(Map<Seq<char>, Json>),
}

/// The document that a `serde_json::Value` holds.
pub uninterp spec fn json_model(value: serde_json::Value) -> Json;

/// What `serde_json::Number::as_u64` returns for a number: its value where
/// the number is held as an integer from 0 to 2^64 - 1, and `None` where it
/// is held as a negative integer or as a fraction. A number read from a text
/// is held as a fraction if the text has a fraction or an exponent, or is an
/// integer beyond 64 bits.
pub uninterp spec fn number_natural(number: serde_json::Number) -> Option<u64>;

/// What `serde_json::from_str` reads from a text: the document, or `None`
/// where the text is not one JSON document.
pub uninterp spec fn parsed_json(text: Seq<char>) -> Option<Json>;

/// The compact text that `serde_json` writes for a document. The members of
/// an object are written in the order of their keys, so the text does not
/// depend on the order in which they were set. (This is `serde_json` without
/// its feature `preserve_order`, which this crate does not switch on.)
pub uninterp spec fn json_text(document: Json) -> Seq<char>;

/// The documents that a sequence of values holds, in order.
pub open spec fn json_models(values: Seq<serde_json::Value>) -> Seq<Json> {
    values.map_values(|value: serde_json::Value| json_model(value))
}

/// The member of an object under a key; `None` for a missing key and for a
/// document that is no object.
pub open spec fn member(document: Json, key: Seq<char>) -> Option<Json> {
    match document {
        Json::Object(members) => if members.contains_key(key) {
            Some(members[key])
        } else {
            None
        },
        _ => None,
    }
}

/// The text of a string; `None` for any other document.
pub open spec fn text_of(document: Json) -> Option<Seq<char>> {
    match document {
        Json::Text(text) => Some(text),
        _ => None,
    }
}

/// The items of an array; `None` for any other document.
pub open spec fn items_of(document: Json) -> Option<Seq<Json>> {
    match document {
        Json::Array(items) => Some(items),
        _ => None,
    }
}

/// The value of a number that is an integer from 0 to 2^64 - 1; `None` for
/// any other number and any other document.
pub open spec fn natural_of(document: Json) -> Option<u64> {
    match document {
        Json::Number(number) => number_natural(number),
        _ => None,
    }
}

/// `serde_json::from_str` at the type `Value`: reads one JSON document from a
/// text. The outcome is a function of the text alone; an error stands for a
/// text that is not one JSON document.
#[verifier::external_body]
pub(crate) fn parse_json(text: &str) -> (parsed: Result<Value, serde_json::Error>)
    ensures
        match parsed {
            Ok(value) => parsed_json(text@) == Some(json_model(value)),
            Err(_) => parsed_json(text@) is None,
        },
{
    serde_json::from_str(text)
}

/// `Value::to_string`, the `Display` of a `Value`: writes the document as
/// compact JSON text, the members of an object in the order of their keys.
/// The text is a function of the document alone.
#[verifier::external_body]
pub(crate) fn render_json(value: &Value) -> (text: String)
    ensures
        text@ == json_text(json_model(*value)),
{
    value.to_string()
}

/// `Value::get` with a string key: the member of an object under that key.
#[verifier::external_body]
pub(crate) fn json_member<'a>(value: &'a Value, key: &str) -> (found: Option<&'a Value>)
    ensures
        match found {
            Some(inner) => member(json_model(*value), key@) == Some(json_model(*inner)),
            None => member(json_model(*value), key@) is None,
        },
{
    value.get(key)
}

/// `Value::as_str`: the text of a string, `None` for any other value.
pub assume_specification[ serde_json::Value::as_str ](value: &Value) -> (text: Option<&str>)
    ensures
        match text {
            Some(text) => text_of(json_model(*value)) == Some(text@),
            None => text_of(json_model(*value)) is None,
        },
;

/// `Value::as_array`: the items of an array, `None` for any other value.
pub assume_specification[ serde_json::Value::as_array ](
    value: &Value,
) -> (items: Option<&Vec<Value>>)
    ensures
        match items {
            Some(items) => items_of(json_model(*value)) == Some(json_models(items@)),
            None => items_of(json_model(*value)) is None,
        },
;

/// `Value::as_u64`: the value of a number that `Number::as_u64` accepts,
/// `None` for any other number and any other value.
pub assume_specification[ serde_json::Value::as_u64 ](value: &Value) -> (natural: Option<u64>)
    ensures
        natural == match json_model(*value) {
            Json::Number(number) => number_natural(number),
            _ => None,
        },
;

/// `Value::from` on a string slice: a JSON string with that text.
#[verifier::external_body]
pub(crate) fn json_string(text: &str) -> (value: Value)
    ensures
        json_model(value) == Json::Text(text@),
{
    Value::from(text)
}

/// `Value::from` on a vector of values: a JSON array of those items.
#[verifier::external_body]
pub(crate) fn json_array(items: Vec<Value>) -> (value: Value)
    ensures
        json_model(value) == Json::Array(json_models(items@)),
{
    Value::from(items)
}

/// `Value::from` on a new `serde_json::Map`: a JSON object without members.
#[verifier::external_body]
pub(crate) fn json_object() -> (value: Value)
    ensures
        json_model(value) == Json::Object(Map::empty()),
{
    Value::from(serde_json::Map::new())
}

/// Assignment through `IndexMut<&str>` of a `Value` that is an object: sets
/// the member under the key, in place of an earlier member under that key.
/// On a value that is neither an object nor null the index panics.
#[verifier::external_body]
pub(crate) fn json_set(object: &mut Value, key: &str, inner: Value)
    requires
        json_model(*old(object)) is Object,
    ensures
        json_model(*final(object)) == Json::Object(
            json_model(*old(object))->Object_0.insert(key@, json_model(inner)),
        ),
{
    object[key] = inner;
}

/// `serde::de::Error::custom` for `serde_json::Error`: an error that carries
/// the given description of a document that has not the expected shape.
#[verifier::external_body]
pub(crate) fn shape_error(detail: &str) -> (error: serde_json::Error) {
    serde::de::Error::custom(detail)
}

} // verus!
