//! A mathematical model of parsed JSON values, and the trusted boundary to
//! `serde_json`, which does the actual parsing.
//!
//! `serde_json::Value` is opaque to the verifier, so each value is given a
//! ghost model of type [`JsonModel`]: an inductive datatype mirroring the
//! six kinds of JSON value. The trusted wrappers below relate every call's
//! result to that model, and the rest of the crate reasons over the model
//! alone.
use vstd::prelude::*;

verus! {

/// The mathematical shape of one parsed JSON value.
pub enum JsonModel {
    /// JSON `null`.
    Null,
    /// A JSON boolean.
    Bool(bool),
    /// A JSON number. Carries `Some(n)` exactly when the number is an
    /// integer representable as a `u64`, and `None` for every other number.
    Num(Option<u64>),
    /// A JSON string, as its sequence of characters.
    Str(Seq<char>),
    /// A JSON array, in element order.
    Arr(Seq<JsonModel>),
    /// A JSON object, as a map from field name to field value.
    Obj(Map<Seq<char>, JsonModel>),
}

#[verifier::external_type_specification]
#[verifier::external_body]
pub struct ExValue(serde_json::Value);

/// The model of a parsed `serde_json::Value`.
pub uninterp spec fn json_model(v: serde_json::Value) -> JsonModel;

/// What `serde_json::from_str::<Value>` yields on a given text: `None` when
/// the text is not well-formed JSON, otherwise the model of the parsed
/// value. Parsing is a function of the text alone.
pub uninterp spec fn json_parse_of(s: Seq<char>) -> Option<JsonModel>;

/// Relies on `serde_json::from_str::<serde_json::Value>`: it parses the
/// text as JSON, deterministically, returning `Err` exactly on text that is
/// not well-formed JSON.
#[verifier::external_body]
pub(crate) fn parse_json(s: &str) -> (r: Option<serde_json::Value>)
    ensures
        r is Some <==> json_parse_of(s@) is Some,
        r matches Some(v) ==> json_parse_of(s@) == Some(json_model(v)),
{
    serde_json::from_str::<serde_json::Value>(s).ok()
}

/// Relies on `serde_json::Value::get` with a string index: on an object it
/// looks the field up by name, on every other value it returns `None`.
#[verifier::external_body]
pub(crate) fn get_field<'a>(v: &'a serde_json::Value, key: &str) -> (r: Option<
    &'a serde_json::Value,
>)
    ensures
        (match json_model(*v) {
            JsonModel::Obj(m) => {
                &&& (r is Some <==> m.contains_key(key@))
                &&& (r matches Some(f) ==> m.contains_key(key@) && json_model(*f) == m[key@])
            },
            _ => r is None,
        }),
{
    v.get(key)
}

/// Relies on `serde_json::Value::as_str`: it returns the string of a JSON
/// string and `None` for every other value.
#[verifier::external_body]
pub(crate) fn value_as_str<'a>(v: &'a serde_json::Value) -> (r: Option<&'a str>)
    ensures
        (match json_model(*v) {
            JsonModel::Str(s) => r matches Some(t) && t@ == s,
            _ => r is None,
        }),
{
    v.as_str()
}

/// Relies on `serde_json::Value::as_u64`: it returns the value of a JSON
/// number that is an integer representable as a `u64`, and `None` for every
/// other number and every non-number.
#[verifier::external_body]
pub(crate) fn value_as_u64(v: &serde_json::Value) -> (r: Option<u64>)
    ensures
        (match json_model(*v) {
            JsonModel::Num(n) => r == n,
            _ => r is None,
        }),
{
    v.as_u64()
}

/// Relies on `serde_json::Value::as_array`: it returns the elements of a
/// JSON array, in order, and `None` for every other value.
#[verifier::external_body]
pub(crate) fn value_as_array<'a>(v: &'a serde_json::Value) -> (r: Option<
    &'a Vec<serde_json::Value>,
>)
    ensures
        (match json_model(*v) {
            JsonModel::Arr(s) => r matches Some(a) && a@.len() == s.len() && (forall|i: int|
                0 <= i < s.len() ==> #[trigger] json_model(a@[i]) == s[i]),
            _ => r is None,
        }),
{
    v.as_array()
}

} // verus!
