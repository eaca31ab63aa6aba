//! JSON documents, as `serde_json` reads them.
//!
//! Parsing JSON text is left to `serde_json`. A parsed document is an opaque
//! `serde_json::Value`; what it holds is described by [`JsonModel`], and the
//! functions below, whose contracts are assumed, relate the accessors of
//! `serde_json::Value` to that model. All decoding into the types of this
//! library is built on them and verified.

use vstd::prelude::*;

verus! {

#[verifier::external_type_specification]
#[verifier::external_body]
pub struct ExJsonValue(serde_json::Value);

/// A JSON number, as far as it is an integer: its value as an unsigned and
/// as a signed 64-bit number, where it has one.
pub struct JsonNumber {
    pub unsigned: Option<u64>,
    pub signed: Option<i64>,
}

/// The mathematical content of a JSON document.
pub enum JsonModel {
    Null,
    Boolean(bool),
    Number(JsonNumber),
    Text(Seq<char>),
    Array(Seq<JsonModel>),
    Object(Map<Seq<char>, JsonModel>),
}

/// What a parsed document holds.
pub uninterp spec fn json_model(v: serde_json::Value) -> JsonModel;

/// What `serde_json` reads from a text: the content of the document, or
/// `None` where the text is not one JSON document.
pub uninterp spec fn json_text_model(text: Seq<char>) -> Option<JsonModel>;

/// The member `key` of an object; `None` for a missing member and for
/// anything that is not an object.
pub open spec fn json_member(m: JsonModel, key: Seq<char>) -> Option<JsonModel> {
    match m {
        JsonModel::Object(members) => if members.contains_key(key) {
            Some(members[key])
        } else {
            None
        },
        _ => None,
    }
}

/// The text of a JSON string.
pub open spec fn json_text(m: JsonModel) -> Option<Seq<char>> {
    match m {
        JsonModel::Text(s) => Some(s),
        _ => None,
    }
}

/// The value of a JSON boolean.
pub open spec fn json_boolean(m: JsonModel) -> Option<bool> {
    match m {
        JsonModel::Boolean(b) => Some(b),
        _ => None,
    }
}

/// The value of a JSON number that is an integer in the range of `u64`.
pub open spec fn json_unsigned(m: JsonModel) -> Option<u64> {
    match m {
        JsonModel::Number(n) => n.unsigned,
        _ => None,
    }
}

/// The value of a JSON number that is an integer in the range of `i64`.
pub open spec fn json_signed(m: JsonModel) -> Option<i64> {
    match m {
        JsonModel::Number(n) => n.signed,
        _ => None,
    }
}

/// The elements of a JSON array.
pub open spec fn json_elements(m: JsonModel) -> Option<Seq<JsonModel>> {
    match m {
        JsonModel::Array(items) => Some(items),
        _ => None,
    }
}

/// Calls `serde_json::from_str` for a `serde_json::Value`. Assumed: the
/// outcome is a function of the text alone, named [`json_text_model`]; a
/// text that is not one JSON document gives `None`.
#[verifier::external_body]
pub(crate) fn json_from_str(text: &str) -> (r: Option<serde_json::Value>)
    ensures
        match r {
            Some(v) => json_text_model(text@) == Some(json_model(v)),
            None => json_text_model(text@) is None,
        },
{
    serde_json::from_str::<serde_json::Value>(text).ok()
}

/// Calls `serde_json::Value::get` with a text key. Assumed: it returns the
/// member of that name of an object, and `None` for a missing member or a
/// value that is not an object.
#[verifier::external_body]
pub(crate) fn json_get<'a>(v: &'a serde_json::Value, key: &str) -> (r: Option<&'a serde_json::Value>)
    ensures
        match r {
            Some(member) => json_member(json_model(*v), key@) == Some(json_model(*member)),
            None => json_member(json_model(*v), key@) is None,
        },
{
    v.get(key)
}

/// Calls `serde_json::Value::is_object`. Assumed: true exactly for an object.
#[verifier::external_body]
pub(crate) fn json_is_object(v: &serde_json::Value) -> (r: bool)
    ensures
        r == (json_model(*v) is Object),
{
    v.is_object()
}

/// Calls `serde_json::Value::is_null`. Assumed: true exactly for `null`.
#[verifier::external_body]
pub(crate) fn json_is_null(v: &serde_json::Value) -> (r: bool)
    ensures
        r == (json_model(*v) is Null),
{
    v.is_null()
}

/// Calls `serde_json::Value::as_str`. Assumed: it returns the text of a
/// string, and `None` for anything else.
#[verifier::external_body]
pub(crate) fn json_as_str<'a>(v: &'a serde_json::Value) -> (r: Option<&'a str>)
    ensures
        match r {
            Some(s) => json_text(json_model(*v)) == Some(s@),
            None => json_text(json_model(*v)) is None,
        },
{
    v.as_str()
}

/// Calls `serde_json::Value::as_bool`. Assumed: it returns the value of a
/// boolean, and `None` for anything else.
#[verifier::external_body]
pub(crate) fn json_as_bool(v: &serde_json::Value) -> (r: Option<bool>)
    ensures
        r == json_boolean(json_model(*v)),
{
    v.as_bool()
}

/// Calls `serde_json::Value::as_u64`. Assumed: it returns the value of a
/// number that is an integer in the range of `u64`, and `None` for anything
/// else.
#[verifier::external_body]
pub(crate) fn json_as_u64(v: &serde_json::Value) -> (r: Option<u64>)
    ensures
        r == json_unsigned(json_model(*v)),
{
    v.as_u64()
}

/// Calls `serde_json::Value::as_i64`. Assumed: it returns the value of a
/// number that is an integer in the range of `i64`, and `None` for anything
/// else.
#[verifier::external_body]
pub(crate) fn json_as_i64(v: &serde_json::Value) -> (r: Option<i64>)
    ensures
        r == json_signed(json_model(*v)),
{
    v.as_i64()
}

/// Calls `serde_json::Value::as_array`. Assumed: it returns the elements of
/// an array, in order, and `None` for anything else.
#[verifier::external_body]
pub(crate) fn json_as_array<'a>(v: &'a serde_json::Value) -> (r: Option<&'a Vec<serde_json::Value>>)
    ensures
        match r {
            Some(items) => json_elements(json_model(*v)) == Some(
                items@.map_values(|item: serde_json::Value| json_model(item)),
            ),
            None => json_elements(json_model(*v)) is None,
        },
{
    v.as_array()
}

} // verus!
