//! JSON documents, as `serde_json` parses and holds them, with a
//! mathematical model of what a document holds.

use vstd::prelude::*;

verus! {

/// What a JSON value holds. A number's magnitude is not modelled.
pub ghost enum JsonModel {
    Null,
    Bool(bool),
    Number,
    Text(Seq<char>),
    Array(Seq<JsonModel>),
    Object(Map<Seq<char>, JsonModel>),
}

#[verifier::external_type_specification]
#[verifier::external_body]
pub struct ExJsonValue(serde_json::Value);

#[verifier::external_type_specification]
#[verifier::external_body]
pub struct ExJsonError(serde_json::Error);

/// What the value `v` holds.
pub uninterp spec fn json_model(v: serde_json::Value) -> JsonModel;

/// The document that `serde_json` reads from `bytes`; `None` where it
/// rejects them.
pub uninterp spec fn json_document(bytes: Seq<u8>) -> Option<JsonModel>;

/// The member of `doc` under `key`: present only where `doc` is an object
/// that has the key.
pub open spec fn member(doc: JsonModel, key: Seq<char>) -> Option<JsonModel> {
    match doc {
        JsonModel::Object(m) => if m.contains_key(key) {
            Some(m[key])
        } else {
            None
        },
        _ => None,
    }
}

/// The text of `doc`, where it is a string.
pub open spec fn text_of(doc: JsonModel) -> Option<Seq<char>> {
    match doc {
        JsonModel::Text(s) => Some(s),
        _ => None,
    }
}

/// The items of `doc`, where it is an array.
pub open spec fn items_of(doc: JsonModel) -> Option<Seq<JsonModel>> {
    match doc {
        JsonModel::Array(a) => Some(a),
        _ => None,
    }
}

/// Calls `serde_json::from_slice` for a `Value`. The contract names what it
/// returns: success exactly where `json_document` is defined on the bytes,
/// and then a value that holds that document. Nothing is said of the error.
#[verifier::external_body]
pub(crate) fn parse_json(bytes: &[u8]) -> (r: Result<serde_json::Value, serde_json::Error>)
    ensures
        r.is_ok() == json_document(bytes@).is_some(),
        r.is_ok() ==> json_model(r.unwrap()) == json_document(bytes@).unwrap(),
{
    serde_json::from_slice::<serde_json::Value>(bytes)
}

/// Calls `Value::get` with a string index: the member under `key` where the
/// value is an object that has the key, nothing otherwise.
#[verifier::external_body]
pub(crate) fn json_get<'a>(v: &'a serde_json::Value, key: &str) -> (r: Option<&'a serde_json::Value>)
    ensures
        r.is_some() == member(json_model(*v), key@).is_some(),
        r.is_some() ==> json_model(*r.unwrap()) == member(json_model(*v), key@).unwrap(),
{
    v.get(key)
}

/// Calls `Value::as_str`: the text where the value is a string, nothing
/// otherwise.
#[verifier::external_body]
pub(crate) fn json_as_str<'a>(v: &'a serde_json::Value) -> (r: Option<&'a str>)
    ensures
        r.is_some() == text_of(json_model(*v)).is_some(),
        r.is_some() ==> r.unwrap()@ == text_of(json_model(*v)).unwrap(),
{
    v.as_str()
}

/// Calls `Value::as_array`: the items where the value is an array, each
/// holding the item of the model at its index; nothing otherwise.
#[verifier::external_body]
pub(crate) fn json_as_array<'a>(v: &'a serde_json::Value) -> (r: Option<&'a Vec<serde_json::Value>>)
    ensures
        r.is_some() == items_of(json_model(*v)).is_some(),
        r.is_some() ==> r.unwrap()@.len() == items_of(json_model(*v)).unwrap().len(),
        r.is_some() ==> forall|i: int|
            0 <= i < r.unwrap()@.len() ==> json_model(#[trigger] r.unwrap()@[i]) == items_of(
                json_model(*v),
            ).unwrap()[i],
{
    v.as_array()
}

/// Calls the error's `to_string`: the message of a rejected document.
/// Nothing is claimed of the text.
#[verifier::external_body]
pub(crate) fn json_error_text(e: &serde_json::Error) -> (r: String) {
    e.to_string()
}

} // verus!
