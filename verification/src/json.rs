//! A mathematical model of parsed JSON, and the trusted bridge to the
//! `serde_json` parser.
//!
//! Verified code never looks inside a `serde_json::Value`; every reading of
//! one goes through the accessors here, whose contracts speak of the value's
//! model.

use vstd::prelude::*;

verus! {

/// The structure a parsed JSON value holds. Numeric payloads are not
/// modeled; no contract of this library reads them.
pub enum JsonModel {
    Null,
    Bool(bool),
    Num,
    Str(Seq<char>),
    Arr(Seq<JsonModel>),
    Obj(Map<Seq<char>, JsonModel>),
}

#[verifier::external_type_specification]
#[verifier::external_body]
pub struct ExJsonValue(serde_json::Value);

#[verifier::external_type_specification]
#[verifier::external_body]
pub struct ExJsonError(serde_json::Error);

/// The JSON structure a `serde_json::Value` holds.
pub uninterp spec fn json_model(v: serde_json::Value) -> JsonModel;

/// What `serde_json::from_str::<Value>` yields on the given text: the parsed
/// structure, or nothing when the text is not valid JSON; a function of the
/// text alone.
pub uninterp spec fn json_of(s: Seq<char>) -> Option<JsonModel>;

/// Relies on `serde_json::from_str::<Value>`: parses any self-describing
/// JSON document, returns `Err` exactly on malformed text, and is
/// deterministic in the text.
#[verifier::external_body]
pub(crate) fn parse_json(s: &str) -> (r: Result<serde_json::Value, serde_json::Error>)
    ensures
        r is Ok <==> json_of(s@) is Some,
        r matches Ok(v) ==> json_model(v) == json_of(s@)->0,
{
    serde_json::from_str::<serde_json::Value>(s)
}

/// Relies on `serde_json::Value::get` with a string index: `Some` exactly
/// when the value is an object holding the key, and then the held member.
#[verifier::external_body]
pub(crate) fn json_get<'a>(v: &'a serde_json::Value, key: &str) -> (r: Option<
    &'a serde_json::Value,
>)
    ensures
        r is Some <==> (json_model(*v) matches JsonModel::Obj(m) && m.contains_key(key@)),
        r matches Some(f) ==> json_model(*f) == json_model(*v)->Obj_0[key@],
{
    v.get(key)
}

/// Relies on `serde_json::Value::as_array`: `Some` exactly when the value is
/// an array, and then its elements in order.
#[verifier::external_body]
pub(crate) fn json_as_array<'a>(v: &'a serde_json::Value) -> (r: Option<
    &'a Vec<serde_json::Value>,
>)
    ensures
        r is Some <==> json_model(*v) is Arr,
        r matches Some(items) ==> {
            &&& items@.len() == json_model(*v)->Arr_0.len()
            &&& forall|i: int|
                0 <= i < items@.len() ==> #[trigger] json_model(items@[i]) == json_model(
                    *v,
                )->Arr_0[i]
        },
{
    v.as_array()
}

/// Relies on `serde_json::Value::as_str`: `Some` exactly when the value is a
/// string, and then its characters.
#[verifier::external_body]
pub(crate) fn json_as_str<'a>(v: &'a serde_json::Value) -> (r: Option<&'a str>)
    ensures
        r is Some <==> json_model(*v) is Str,
        r matches Some(s) ==> s@ == json_model(*v)->Str_0,
{
    v.as_str()
}

} // verus!
