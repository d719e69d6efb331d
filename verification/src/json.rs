//! The boundary to the JSON decoder: response bodies are parsed into
//! `serde_json::Value` trees, which this crate then walks itself.
//!
//! A `Value` is opaque here, so its content is given a name: the
//! uninterpreted [`json_model`] maps every `Value` to a [`JsonModel`]
//! tree of plain ghost values, and [`spec_json_parse`] names what
//! parsing a given byte sequence yields.  Each trusted accessor below
//! states its result against that model; everything downstream of the
//! boundary is then proved, two-sidedly, in terms of the model.

use vstd::prelude::*;
use crate::Error;

verus! {

#[verifier::external_type_specification]
#[verifier::external_body]
pub struct ExValue(serde_json::Value);

/// The ghost shape of a JSON document.  A number carries its rendered
/// text and, when the wire token was an integer, its exact value.
pub enum JsonModel {
    Null,
    Bool(bool),
    Number(Seq<char>, Option<int>),
    Text(Seq<char>),
    Array(Seq<JsonModel>),
    Object(Map<Seq<char>, JsonModel>),
}

/// What a parsed `serde_json::Value` holds, as a ghost tree.
pub uninterp spec fn json_model(v: serde_json::Value) -> JsonModel;

/// What parsing a byte sequence yields: the model of the resulting
/// value, or nothing where the bytes are not one well-formed JSON
/// document.
pub uninterp spec fn spec_json_parse(bytes: Seq<u8>) -> Option<JsonModel>;

/// The member of an object model under the given name, if the model
/// is an object and has one.
pub open spec fn spec_member(m: JsonModel, name: Seq<char>) -> Option<JsonModel> {
    match m {
        JsonModel::Object(fields) => if fields.dom().contains(name) {
            Some(fields[name])
        } else {
            None
        },
        _ => None,
    }
}

/// The text of a string member, if the model is an object holding one
/// under the given name.
pub open spec fn spec_text_member(m: JsonModel, name: Seq<char>) -> Option<Seq<char>> {
    match spec_member(m, name) {
        Some(f) => match f {
            JsonModel::Text(s) => Some(s),
            _ => None,
        },
        None => None,
    }
}

/// The rendered text of a numeric member, if the model is an object
/// holding one under the given name.
pub open spec fn spec_number_member(m: JsonModel, name: Seq<char>) -> Option<Seq<char>> {
    match spec_member(m, name) {
        Some(f) => match f {
            JsonModel::Number(text, _) => Some(text),
            _ => None,
        },
        None => None,
    }
}

/// The elements of an array member, if the model is an object holding
/// one under the given name.
pub open spec fn spec_array_member(m: JsonModel, name: Seq<char>) -> Option<Seq<JsonModel>> {
    match spec_member(m, name) {
        Some(f) => match f {
            JsonModel::Array(elems) => Some(elems),
            _ => None,
        },
        None => None,
    }
}

/// The model's value as a signed 64-bit integer: the wire token was
/// an integer and its value fits.
pub open spec fn spec_as_i64(m: JsonModel) -> Option<i64> {
    match m {
        JsonModel::Number(_, iv) => match iv {
            Some(n) => if i64::MIN <= n <= i64::MAX {
                Some(n as i64)
            } else {
                None
            },
            None => None,
        },
        _ => None,
    }
}

/// Decodes every element of an array model, or nothing as soon as one
/// element is refused.
pub open spec fn spec_list_of<T>(elems: Seq<JsonModel>, f: spec_fn(JsonModel) -> Option<T>) -> Option<
    Seq<T>,
>
    decreases elems.len(),
{
    if elems.len() == 0 {
        Some(Seq::empty())
    } else {
        match (spec_list_of(elems.drop_last(), f), f(elems.last())) {
            (Some(rest), Some(x)) => Some(rest.push(x)),
            _ => None,
        }
    }
}

/// A decoded array model vouches for every one of its elements.
pub proof fn lemma_list_of_some<T>(elems: Seq<JsonModel>, f: spec_fn(JsonModel) -> Option<T>)
    requires
        spec_list_of(elems, f) is Some,
    ensures
        forall|j: int| 0 <= j < elems.len() ==> f(elems[j]) is Some,
    decreases elems.len(),
{
    if elems.len() > 0 {
        lemma_list_of_some(elems.drop_last(), f);
        assert forall|j: int| 0 <= j < elems.len() implies f(elems[j]) is Some by {
            if j < elems.len() - 1 {
                assert(elems[j] == elems.drop_last()[j]);
            } else {
                assert(elems[j] == elems.last());
            }
        }
    }
}

/// Relies on `serde_json::from_slice`: parses one JSON document from
/// the bytes, or reports why it could not.  The error is carried as
/// its rendered message only.
#[verifier::external_body]
pub(crate) fn json_parse(bytes: &[u8]) -> (r: Result<serde_json::Value, String>)
    ensures
        r matches Ok(v) ==> spec_json_parse(bytes@) == Some(json_model(v)),
        r is Err <==> spec_json_parse(bytes@) is None,
{
    serde_json::from_slice(bytes).map_err(|e| e.to_string())
}

/// Relies on `serde_json::Value::get`: the member of an object under
/// the given name, exactly where the value is an object that has one.
#[verifier::external_body]
pub(crate) fn json_get<'a>(v: &'a serde_json::Value, name: &str) -> (r: Option<
    &'a serde_json::Value,
>)
    ensures
        r matches Some(f) ==> spec_member(json_model(*v), name@) == Some(json_model(*f)),
        r is None <==> spec_member(json_model(*v), name@) is None,
{
    v.get(name)
}

/// Relies on `serde_json::Value::as_array`: the elements, exactly
/// where the value is an array.
#[verifier::external_body]
pub(crate) fn json_as_array<'a>(v: &'a serde_json::Value) -> (r: Option<
    &'a Vec<serde_json::Value>,
>)
    ensures
        r matches Some(a) ==> json_model(*v) == JsonModel::Array(
            a@.map_values(|e: serde_json::Value| json_model(e)),
        ),
        r is None <==> !(json_model(*v) is Array),
{
    v.as_array()
}

/// Relies on `serde_json::Value::as_str`: the text, exactly where the
/// value is a string, copied into an owned `String`.
#[verifier::external_body]
pub(crate) fn json_as_string(v: &serde_json::Value) -> (r: Option<String>)
    ensures
        r matches Some(s) ==> json_model(*v) == JsonModel::Text(s@),
        r is None <==> !(json_model(*v) is Text),
{
    v.as_str().map(|s| s.to_owned())
}

/// Relies on `serde_json::Value::as_number` and the `Display` of
/// `serde_json::Number`: the number's rendered text, exactly where
/// the value is a number.
#[verifier::external_body]
pub(crate) fn json_number_text(v: &serde_json::Value) -> (r: Option<String>)
    ensures
        r matches Some(s) ==> json_model(*v) is Number && json_model(*v)->Number_0 == s@,
        r is None <==> !(json_model(*v) is Number),
{
    v.as_number().map(|n| n.to_string())
}

/// Relies on `serde_json::Value::as_i64`: the value as a signed
/// 64-bit integer, exactly where the wire token was an integer that
/// fits.
#[verifier::external_body]
pub(crate) fn json_as_i64(v: &serde_json::Value) -> (r: Option<i64>)
    ensures
        r == spec_as_i64(json_model(*v)),
{
    v.as_i64()
}

/// Relies on `serde_json::Value::is_null`: whether the value is JSON
/// `null`.
#[verifier::external_body]
pub(crate) fn json_is_null(v: &serde_json::Value) -> (r: bool)
    ensures
        r == (json_model(*v) is Null),
{
    v.is_null()
}

/// The decode error reported when a required member is absent or has
/// the wrong kind.
pub(crate) fn missing_field_error(name: &str) -> (r: Error)
    ensures
        r is DeserializeError,
{
    Error::DeserializeError(String::from_str("missing or invalid field: ").concat(name))
}

/// A required string member of a wire object.
pub(crate) fn req_string(v: &serde_json::Value, name: &str) -> (r: Result<String, Error>)
    ensures
        r matches Ok(s) ==> spec_text_member(json_model(*v), name@) == Some(s@),
        r is Err <==> spec_text_member(json_model(*v), name@) is None,
        r matches Err(e) ==> e is DeserializeError,
{
    match json_get(v, name) {
        Some(f) => match json_as_string(f) {
            Some(s) => Ok(s),
            None => Err(missing_field_error(name)),
        },
        None => Err(missing_field_error(name)),
    }
}

/// A required numeric member of a wire object, kept as its rendered
/// text.
pub(crate) fn req_number_text(v: &serde_json::Value, name: &str) -> (r: Result<String, Error>)
    ensures
        r matches Ok(s) ==> spec_number_member(json_model(*v), name@) == Some(s@),
        r is Err <==> spec_number_member(json_model(*v), name@) is None,
        r matches Err(e) ==> e is DeserializeError,
{
    match json_get(v, name) {
        Some(f) => match json_number_text(f) {
            Some(s) => Ok(s),
            None => Err(missing_field_error(name)),
        },
        None => Err(missing_field_error(name)),
    }
}

/// A required array member of a wire object.
pub(crate) fn req_array<'a>(v: &'a serde_json::Value, name: &str) -> (r: Result<
    &'a Vec<serde_json::Value>,
    Error,
>)
    ensures
        r matches Ok(a) ==> spec_array_member(json_model(*v), name@) == Some(
            a@.map_values(|e: serde_json::Value| json_model(e)),
        ),
        r is Err <==> spec_array_member(json_model(*v), name@) is None,
        r matches Err(e) ==> e is DeserializeError,
{
    match json_get(v, name) {
        Some(f) => match json_as_array(f) {
            Some(a) => Ok(a),
            None => Err(missing_field_error(name)),
        },
        None => Err(missing_field_error(name)),
    }
}

} // verus!
