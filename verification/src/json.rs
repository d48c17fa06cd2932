//! Mathematical model of JSON documents, and trusted access to the
//! `serde_json` parser.
//!
//! A parsed document is held as an opaque `serde_json::Value`; what such a
//! value denotes is captured by the uninterpreted representation function
//! `value_rep`, and every reading wrapper below relates its result to that
//! representation. The contracts of the discovery parser are then stated over
//! the model alone.

use vstd::prelude::*;

verus! {

/// The shape of a JSON document. Numbers carry no payload: nothing in this
/// library reads a numeric field.
pub enum Json {
    Null,
    Bool(bool),
    Num,
    Str(Seq<char>),
    Arr(Seq<Json>),
    Obj(Map<Seq<char>, Json>),
}

#[verifier::external_type_specification]
#[verifier::external_body]
pub struct ExValue(serde_json::Value);

/// What `serde_json::from_str::<Value>` yields on a given text: `None` where
/// the text is not a complete JSON document, otherwise the model of the
/// parsed value.
pub uninterp spec fn json_of(s: Seq<char>) -> Option<Json>;

/// The model of a parsed `serde_json::Value`.
pub uninterp spec fn value_rep(v: serde_json::Value) -> Json;

/// The models of a sequence of parsed values.
pub open spec fn rep_seq(s: Seq<serde_json::Value>) -> Seq<Json> {
    s.map_values(|x: serde_json::Value| value_rep(x))
}

/// Relies on serde_json::from_str::<Value>: parses a complete JSON document,
/// failing on malformed input.
#[verifier::external_body]
pub(crate) fn parse_json(s: &str) -> (r: Option<serde_json::Value>)
    ensures
        r is Some <==> json_of(s@) is Some,
        r is Some ==> value_rep(r.unwrap()) == json_of(s@).unwrap(),
{
    serde_json::from_str::<serde_json::Value>(s).ok()
}

/// Relies on serde_json::Value::as_array: the element vector where the value
/// is an array, `None` otherwise.
#[verifier::external_body]
pub(crate) fn as_array(v: &serde_json::Value) -> (r: Option<&Vec<serde_json::Value>>)
    ensures
        r is Some <==> value_rep(*v) is Arr,
        r is Some ==> rep_seq(r.unwrap()@) == value_rep(*v)->Arr_0,
{
    v.as_array()
}

/// Relies on serde_json::Value::get with a string index: the value under the
/// key where the value is an object holding that key, `None` otherwise.
#[verifier::external_body]
pub(crate) fn get_field<'a>(v: &'a serde_json::Value, key: &str) -> (r: Option<
    &'a serde_json::Value,
>)
    ensures
        r is Some <==> (value_rep(*v) is Obj && value_rep(*v)->Obj_0.contains_key(key@)),
        r is Some ==> value_rep(*r.unwrap()) == value_rep(*v)->Obj_0[key@],
{
    v.get(key)
}

/// Relies on serde_json::Value::as_str: the text where the value is a JSON
/// string, `None` otherwise.
#[verifier::external_body]
pub(crate) fn as_text<'a>(v: &'a serde_json::Value) -> (r: Option<&'a str>)
    ensures
        r is Some <==> value_rep(*v) is Str,
        r is Some ==> r.unwrap()@ == value_rep(*v)->Str_0,
{
    v.as_str()
}

} // verus!
