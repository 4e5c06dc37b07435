//! The boundary to `serde_json`: the JSON objects that the service answers
//! with, the JSON strings that it is sent, and what this library believes of
//! them without proof.

use vstd::prelude::*;
use serde_json::Error as JsonFailure;

verus! {

/// `serde_json::Value`: one JSON value.
#[verifier::external_type_specification]
#[verifier::external_body]
pub struct ExValue(serde_json::Value);

/// `serde_json::Map`: one JSON object.
#[verifier::external_type_specification]
#[verifier::external_body]
#[verifier::reject_recursive_types(K)]
#[verifier::reject_recursive_types(V)]
pub struct ExObject<K, V>(serde_json::Map<K, V>);

/// `serde_json::Error`: why JSON could not be written or read.
#[verifier::external_type_specification]
#[verifier::external_body]
pub struct ExJsonFailure(JsonFailure);

/// What one JSON value holds, as far as the decoder reads it. Booleans,
/// numbers, arrays and nested objects are told apart no further.
pub enum Json {
    Null,
    Text(Seq<char>),
    Other,
}

/// What a `serde_json::Value` holds.
pub uninterp spec fn value_model(value: serde_json::Value) -> Json;

/// The members of a `serde_json::Map`, by key.
pub uninterp spec fn object_model(object: serde_json::Map<String, serde_json::Value>) -> Map<
    Seq<char>,
    Json,
>;

/// `serde_json::Value::is_null`: whether the value is JSON's `null`.
pub assume_specification[ serde_json::Value::is_null ](value: &serde_json::Value) -> (null: bool)
    ensures
        null == (value_model(*value) is Null),
;

/// `serde_json::Map::get`: the member under `key`, if the object has one.
#[verifier::external_body]
pub(crate) fn member<'a>(
    object: &'a serde_json::Map<String, serde_json::Value>,
    key: &str,
) -> (found: Option<&'a serde_json::Value>)
    ensures
        found is Some <==> object_model(*object).contains_key(key@),
        found matches Some(value) ==> value_model(*value) == object_model(*object)[key@],
{
    object.get(key)
}

/// `String`'s `Deserialize` on a `&serde_json::Value`: the text of a JSON
/// string, and serde's error for a value of any other type.
#[verifier::external_body]
pub(crate) fn expect_text(value: &serde_json::Value) -> (outcome: Result<String, serde_json::Error>)
    ensures
        outcome is Ok <==> value_model(*value) is Text,
        outcome matches Ok(text) ==> value_model(*value) == Json::Text(text@),
{
    <String as serde::Deserialize>::deserialize(value)
}

/// The members of the object that a JSON text denotes; `None` where the text
/// is not that of one JSON object.
pub uninterp spec fn parsed_object(body: Seq<u8>) -> Option<Map<Seq<char>, Json>>;

/// `serde_json::from_slice` at `serde_json::Map`: reads one JSON object, and
/// fails on any other text.
#[verifier::external_body]
pub(crate) fn parse_object(body: &[u8]) -> (outcome: Result<
    serde_json::Map<String, serde_json::Value>,
    serde_json::Error,
>)
    ensures
        outcome is Ok <==> parsed_object(body@) is Some,
        outcome matches Ok(object) ==> parsed_object(body@) == Some(object_model(object)),
{
    serde_json::from_slice(body)
}

/// What a `serde_json::Error` gives as its description.
pub uninterp spec fn json_description(failure: serde_json::Error) -> Seq<char>;

/// `serde_json::Error`'s `description`, of the standard error trait. The
/// crate's impl leaves the method to the trait's default.
#[verifier::external_body]
#[allow(deprecated)]
pub(crate) fn describe_json<'a>(failure: &'a serde_json::Error) -> (text: &'a str)
    ensures
        text@ == json_description(*failure),
{
    std::error::Error::description(failure)
}

/// A text as a JSON string: between double quotes, with what JSON cannot
/// hold verbatim written as escapes.
pub uninterp spec fn quoted_text(text: Seq<char>) -> Seq<char>;

/// `serde_json::to_string` on a string slice: the text as a JSON string. It
/// writes into memory, where nothing fails, so it always succeeds.
#[verifier::external_body]
pub(crate) fn quote(text: &str) -> (outcome: Result<String, serde_json::Error>)
    ensures
        outcome is Ok,
        outcome matches Ok(quoted) ==> quoted@ == quoted_text(text@),
{
    serde_json::to_string(text)
}

} // verus!
