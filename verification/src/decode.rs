//! Reading the members of a JSON object.
//!
//! A member that a schema requires must be present and of the right kind. A
//! member that a schema makes optional may be missing or `null`; where it is
//! present it must be of the right kind. Members that a schema does not name
//! are ignored.

use crate::json::{
    json_as_array, json_as_bool, json_as_i64, json_as_str, json_as_u64, json_boolean, json_elements,
    json_get, json_is_null, json_member, json_model, json_signed, json_text, json_unsigned, JsonModel,
};
use vstd::prelude::*;

verus! {

/// The outcome of reading an optional member with the reader `read`: the
/// member is missing or `null` (`Some(None)`), is read (`Some(Some(..))`),
/// or is of the wrong kind (`None`).
pub open spec fn optional_member<T>(
    m: JsonModel,
    key: Seq<char>,
    read: spec_fn(JsonModel) -> Option<T>,
) -> Option<Option<T>> {
    match json_member(m, key) {
        None => Some(None),
        Some(JsonModel::Null) => Some(None),
        Some(x) => match read(x) {
            Some(value) => Some(Some(value)),
            None => None,
        },
    }
}

/// The outcome of reading a required member with the reader `read`.
pub open spec fn required_member<T>(
    m: JsonModel,
    key: Seq<char>,
    read: spec_fn(JsonModel) -> Option<T>,
) -> Option<T> {
    match json_member(m, key) {
        None => None,
        Some(x) => read(x),
    }
}

/// The required string member `key`.
pub open spec fn required_text(m: JsonModel, key: Seq<char>) -> Option<Seq<char>> {
    required_member(m, key, |x: JsonModel| json_text(x))
}

/// The optional string member `key`.
pub open spec fn optional_text(m: JsonModel, key: Seq<char>) -> Option<Option<Seq<char>>> {
    optional_member(m, key, |x: JsonModel| json_text(x))
}

/// The required boolean member `key`.
pub open spec fn required_boolean(m: JsonModel, key: Seq<char>) -> Option<bool> {
    required_member(m, key, |x: JsonModel| json_boolean(x))
}

/// The optional boolean member `key`.
pub open spec fn optional_boolean(m: JsonModel, key: Seq<char>) -> Option<Option<bool>> {
    optional_member(m, key, |x: JsonModel| json_boolean(x))
}

/// The required member `key`, an integer in the range of `u64`.
pub open spec fn required_unsigned(m: JsonModel, key: Seq<char>) -> Option<u64> {
    required_member(m, key, |x: JsonModel| json_unsigned(x))
}

/// The optional member `key`, an integer in the range of `u64`.
pub open spec fn optional_unsigned(m: JsonModel, key: Seq<char>) -> Option<Option<u64>> {
    optional_member(m, key, |x: JsonModel| json_unsigned(x))
}

/// A JSON number that is an integer in the range of `i32`.
pub open spec fn json_i32(m: JsonModel) -> Option<i32> {
    match json_signed(m) {
        Some(n) => if i32::MIN <= n <= i32::MAX {
            Some(n as i32)
        } else {
            None
        },
        None => None,
    }
}

/// The optional member `key`, an integer in the range of `i32`.
pub open spec fn optional_i32(m: JsonModel, key: Seq<char>) -> Option<Option<i32>> {
    optional_member(m, key, |x: JsonModel| json_i32(x))
}

/// A JSON array of strings.
pub open spec fn json_text_list(m: JsonModel) -> Option<Seq<Seq<char>>> {
    match json_elements(m) {
        Some(items) => if forall|i: int| 0 <= i < items.len() ==> (#[trigger] items[i]) is Text {
            Some(items.map_values(|x: JsonModel| x->Text_0))
        } else {
            None
        },
        None => None,
    }
}

/// The optional member `key`, an array of strings.
pub open spec fn optional_text_list(m: JsonModel, key: Seq<char>) -> Option<Option<Seq<Seq<char>>>> {
    optional_member(m, key, |x: JsonModel| json_text_list(x))
}

/// The outcome of reading every element of an array with the reader `read`:
/// the values read, in order, or `None` where an element cannot be read.
pub open spec fn read_all<T>(items: Seq<JsonModel>, read: spec_fn(JsonModel) -> Option<T>) -> Option<
    Seq<T>,
> {
    if forall|i: int| 0 <= i < items.len() ==> read(#[trigger] items[i]) is Some {
        Some(items.map_values(|x: JsonModel| read(x)->0))
    } else {
        None
    }
}

/// Reads the required string member `key`.
pub fn read_required_text(v: &serde_json::Value, key: &str) -> (r: Option<String>)
    ensures
        r.deep_view() == required_text(json_model(*v), key@),
{
    match json_get(v, key) {
        None => None,
        Some(member) => match json_as_str(member) {
            Some(s) => Some(s.to_owned()),
            None => None,
        },
    }
}

/// Reads the optional string member `key`.
pub fn read_optional_text(v: &serde_json::Value, key: &str) -> (r: Option<Option<String>>)
    ensures
        r.deep_view() == optional_text(json_model(*v), key@),
{
    match json_get(v, key) {
        None => Some(None),
        Some(member) => if json_is_null(member) {
            Some(None)
        } else {
            match json_as_str(member) {
                Some(s) => Some(Some(s.to_owned())),
                None => None,
            }
        },
    }
}

/// Reads the required boolean member `key`.
pub fn read_required_boolean(v: &serde_json::Value, key: &str) -> (r: Option<bool>)
    ensures
        r == required_boolean(json_model(*v), key@),
{
    match json_get(v, key) {
        None => None,
        Some(member) => json_as_bool(member),
    }
}

/// Reads the optional boolean member `key`.
pub fn read_optional_boolean(v: &serde_json::Value, key: &str) -> (r: Option<Option<bool>>)
    ensures
        r == optional_boolean(json_model(*v), key@),
{
    match json_get(v, key) {
        None => Some(None),
        Some(member) => if json_is_null(member) {
            Some(None)
        } else {
            match json_as_bool(member) {
                Some(b) => Some(Some(b)),
                None => None,
            }
        },
    }
}

/// Reads the required member `key`, an integer in the range of `u64`.
pub fn read_required_unsigned(v: &serde_json::Value, key: &str) -> (r: Option<u64>)
    ensures
        r == required_unsigned(json_model(*v), key@),
{
    match json_get(v, key) {
        None => None,
        Some(member) => json_as_u64(member),
    }
}

/// Reads the optional member `key`, an integer in the range of `u64`.
pub fn read_optional_unsigned(v: &serde_json::Value, key: &str) -> (r: Option<Option<u64>>)
    ensures
        r == optional_unsigned(json_model(*v), key@),
{
    match json_get(v, key) {
        None => Some(None),
        Some(member) => if json_is_null(member) {
            Some(None)
        } else {
            match json_as_u64(member) {
                Some(n) => Some(Some(n)),
                None => None,
            }
        },
    }
}

/// Reads the optional member `key`, an integer in the range of `i32`.
pub fn read_optional_i32(v: &serde_json::Value, key: &str) -> (r: Option<Option<i32>>)
    ensures
        r == optional_i32(json_model(*v), key@),
{
    match json_get(v, key) {
        None => Some(None),
        Some(member) => if json_is_null(member) {
            Some(None)
        } else {
            match json_as_i64(member) {
                Some(n) => if -2147483648 <= n && n <= 2147483647 {
                    Some(Some(n as i32))
                } else {
                    None
                },
                None => None,
            }
        },
    }
}

/// Reads a JSON array of strings.
pub fn read_text_list(v: &serde_json::Value) -> (r: Option<Vec<String>>)
    ensures
        r.deep_view() == json_text_list(json_model(*v)),
{
    match json_as_array(v) {
        None => None,
        Some(items) => {
            let ghost models = items@.map_values(|item: serde_json::Value| json_model(item));
            let mut out: Vec<String> = Vec::new();
            let mut i: usize = 0;
            while i < items.len()
                invariant
                    i <= items.len(),
                    models == items@.map_values(|item: serde_json::Value| json_model(item)),
                    json_elements(json_model(*v)) == Some(models),
                    out@.len() == i,
                    forall|j: int| 0 <= j < i ==> (#[trigger] models[j]) is Text,
                    forall|j: int| 0 <= j < i ==> (#[trigger] out@[j])@ == models[j]->Text_0,
                decreases items.len() - i,
            {
                match json_as_str(&items[i]) {
                    Some(s) => {
                        out.push(s.to_owned());
                    },
                    None => {
                        assert(!(models[i as int] is Text));
                        return None;
                    },
                }
                i = i + 1;
            }
            Some(out)
        },
    }
}

/// Reads the optional member `key`, an array of strings.
pub fn read_optional_text_list(v: &serde_json::Value, key: &str) -> (r: Option<Option<Vec<String>>>)
    ensures
        r.deep_view() == optional_text_list(json_model(*v), key@),
{
    match json_get(v, key) {
        None => Some(None),
        Some(member) => if json_is_null(member) {
            Some(None)
        } else {
            match read_text_list(member) {
                Some(list) => Some(Some(list)),
                None => None,
            }
        },
    }
}

} // verus!
