//! A mathematical model of parsed JSON documents, together with the trusted
//! bindings to `serde_json` that the decoders are verified against.
//!
//! The registry answers every query with a JSON document. The library never
//! inspects a `serde_json::Value` directly: every observation goes through
//! one of the trusted accessors below, whose contracts are stated over the
//! ghost [`JsonData`] model, and all decoding logic is verified against
//! those contracts.

use vstd::prelude::*;

use crate::render::dec_digits;

verus! {

/// `serde_json::Value` is the parsed form of a JSON document. The library
/// holds values of it and reads them only through the trusted accessors in
/// this module.
#[verifier::external_type_specification]
#[verifier::external_body]
pub struct ExValue(serde_json::Value);

/// The mathematical shape of a JSON document: the six JSON kinds, with
/// object fields as a map from field name to field value and numbers
/// abstracted to their decimal text.
pub ghost enum JsonData {
    Null,
    Bool(bool),
    Number(Seq<char>),
    Text(Seq<char>),
    Array(Seq<JsonData>),
    Object(Map<Seq<char>, JsonData>),
}

/// What a `serde_json::Value` holds, as a [`JsonData`]. Every trusted
/// accessor of this module states its result over this model.
pub uninterp spec fn json_model(v: serde_json::Value) -> JsonData;

/// What `serde_json::from_str` makes of a piece of text: the model of the
/// parsed document, or `None` where the text is not valid JSON. The result
/// depends on the text alone.
pub uninterp spec fn json_parse(s: Seq<char>) -> Option<JsonData>;

/// Relies on `serde_json::from_str::<serde_json::Value>`: parses JSON text
/// into a `Value`; parsing is a function of the text alone.
#[verifier::external_body]
pub(crate) fn js_parse(s: &str) -> (r: Result<serde_json::Value, String>)
    ensures
        r is Ok <==> json_parse(s@) is Some,
        r matches Ok(v) ==> json_parse(s@) == Some(json_model(v)),
{
    match serde_json::from_str::<serde_json::Value>(s) {
        Ok(v) => Ok(v),
        Err(e) => Err(e.to_string()),
    }
}

/// Relies on `serde_json::Value::get` with a string index: on an object it
/// looks the field up by name; on every other value it returns `None`.
#[verifier::external_body]
pub(crate) fn js_get<'a>(v: &'a serde_json::Value, key: &str) -> (r: Option<&'a serde_json::Value>)
    ensures
        r is Some <==> (json_model(*v) matches JsonData::Object(fields) && fields.dom().contains(
            key@,
        )),
        r matches Some(w) ==> (json_model(*v) matches JsonData::Object(fields)
            && fields.dom().contains(key@) && json_model(*w) == fields[key@]),
{
    v.get(key)
}

/// Relies on `serde_json::Value::as_str`: the string content of a string
/// value, `None` for every other kind.
#[verifier::external_body]
pub(crate) fn js_as_str<'a>(v: &'a serde_json::Value) -> (r: Option<&'a str>)
    ensures
        r is Some <==> json_model(*v) is Text,
        r matches Some(s) ==> json_model(*v) == JsonData::Text(s@),
{
    v.as_str()
}

/// Relies on `serde_json::Value::as_array`: the elements of an array value,
/// `None` for every other kind.
#[verifier::external_body]
pub(crate) fn js_as_array<'a>(v: &'a serde_json::Value) -> (r: Option<&'a Vec<serde_json::Value>>)
    ensures
        r is Some <==> json_model(*v) is Array,
        r matches Some(a) ==> (json_model(*v) matches JsonData::Array(elems) && a@.len()
            == elems.len() && (forall|i: int|
            0 <= i < elems.len() ==> json_model(a@[i]) == elems[i])),
{
    v.as_array()
}

/// Relies on `serde_json::Value::as_u64`: the value of a number stored as
/// an unsigned integer, whose text is then exactly its decimal digits;
/// `None` for every other value, fractional numbers included, whose text
/// is never a bare digit string.
#[verifier::external_body]
pub(crate) fn js_as_u64(v: &serde_json::Value) -> (r: Option<u64>)
    ensures
        r matches Some(n) ==> json_model(*v) == JsonData::Number(dec_digits(n as nat)),
        forall|n: u64| json_model(*v) == JsonData::Number(dec_digits(n as nat)) ==> r == Some(n),
{
    v.as_u64()
}

/// Relies on `serde_json::Value::from` for `u64`: a number value carrying
/// exactly the given integer.
#[verifier::external_body]
pub(crate) fn js_u64_value(n: u64) -> (v: serde_json::Value)
    ensures
        json_model(v) == JsonData::Number(dec_digits(n as nat)),
{
    serde_json::Value::from(n)
}

/// Relies on `serde_json::Value::is_null`: whether the value is JSON `null`.
#[verifier::external_body]
pub(crate) fn js_is_null(v: &serde_json::Value) -> (r: bool)
    ensures
        r == (json_model(*v) is Null),
{
    v.is_null()
}

/// The field named `k` of an object document, absent on every other kind.
pub open spec fn js_field(m: JsonData, k: Seq<char>) -> Option<JsonData> {
    match m {
        JsonData::Object(fields) => if fields.dom().contains(k) {
            Some(fields[k])
        } else {
            None
        },
        _ => None,
    }
}

/// The string content of the field named `k`, present exactly when the
/// field exists and is a JSON string.
pub open spec fn str_field(m: JsonData, k: Seq<char>) -> Option<Seq<char>> {
    match js_field(m, k) {
        Some(JsonData::Text(s)) => Some(s),
        _ => None,
    }
}

/// Whether an optional string field is acceptable: absent, `null`, or a
/// string.
pub open spec fn opt_field_ok(m: JsonData, k: Seq<char>) -> bool {
    match js_field(m, k) {
        None => true,
        Some(JsonData::Null) => true,
        Some(JsonData::Text(_)) => true,
        _ => false,
    }
}

/// The elements of the array field named `k`, present exactly when the
/// field exists and is a JSON array.
pub open spec fn arr_field(m: JsonData, k: Seq<char>) -> Option<Seq<JsonData>> {
    match js_field(m, k) {
        Some(JsonData::Array(elems)) => Some(elems),
        _ => None,
    }
}

/// Reads a required string field of an object document.
pub(crate) fn get_req_str(v: &serde_json::Value, key: &str) -> (r: Result<String, ()>)
    ensures
        r is Ok <==> str_field(json_model(*v), key@) is Some,
        r matches Ok(s) ==> str_field(json_model(*v), key@) == Some(s@),
{
    match js_get(v, key) {
        Some(w) => match js_as_str(w) {
            Some(s) => Ok(s.to_owned()),
            None => Err(()),
        },
        None => Err(()),
    }
}

/// Reads an optional string field of an object document: an absent or
/// `null` field is `None`; a field of any kind other than string fails.
pub(crate) fn get_opt_str(v: &serde_json::Value, key: &str) -> (r: Result<Option<String>, ()>)
    ensures
        r is Ok <==> opt_field_ok(json_model(*v), key@),
        r matches Ok(s) ==> (match s {
            Some(t) => str_field(json_model(*v), key@) == Some(t@),
            None => str_field(json_model(*v), key@) is None,
        }),
{
    match js_get(v, key) {
        None => Ok(None),
        Some(w) => {
            if js_is_null(w) {
                Ok(None)
            } else {
                match js_as_str(w) {
                    Some(s) => Ok(Some(s.to_owned())),
                    None => Err(()),
                }
            }
        },
    }
}

/// Reads a required array field of an object document.
pub(crate) fn get_arr<'a>(v: &'a serde_json::Value, key: &str) -> (r: Result<
    &'a Vec<serde_json::Value>,
    (),
>)
    ensures
        r is Ok <==> arr_field(json_model(*v), key@) is Some,
        r matches Ok(a) ==> (arr_field(json_model(*v), key@) matches Some(elems) && a@.len()
            == elems.len() && (forall|i: int|
            0 <= i < elems.len() ==> json_model(a@[i]) == elems[i])),
{
    match js_get(v, key) {
        Some(w) => match js_as_array(w) {
            Some(a) => Ok(a),
            None => Err(()),
        },
        None => Err(()),
    }
}

} // verus!
