//! Trusted boundary to the outside JSON parser.
//!
//! Reply bodies are parsed by serde_json.  The parse result is a
//! `serde_json::Value`, opaque to the verifier; [`jmodel`] names the
//! [`JVal`] it holds, and [`json_val_of`] names the parse outcome of a
//! string.  Each wrapper below states, over those names, what one accessor
//! of the parsed value returns, as serde_json's source shows it.

use vstd::prelude::*;

use crate::jmodel::{obj_field, JVal};

verus! {

#[verifier::external_type_specification]
#[verifier::external_body]
pub struct ExValue(serde_json::Value);

/// The JSON value that a parsed `serde_json::Value` holds.
pub uninterp spec fn jmodel(v: serde_json::Value) -> JVal;

/// What parsing a string as one JSON document yields: `Some` exactly when
/// the outside parser accepts the string, and then the value it returns.
pub uninterp spec fn json_val_of(s: Seq<char>) -> Option<JVal>;

/// Relies on serde_json::from_str for `serde_json::Value`: parses the whole
/// string as one JSON document.
#[verifier::external_body]
pub(crate) fn parse_json(s: &str) -> (r: Option<serde_json::Value>)
    ensures
        r matches Some(v) ==> json_val_of(s@) == Some(jmodel(v)),
        r is None ==> json_val_of(s@) is None,
{
    serde_json::from_str::<serde_json::Value>(s).ok()
}

/// Relies on serde_json::Value::get with a string index: `Some` exactly for
/// an object that binds the key.
#[verifier::external_body]
pub(crate) fn jget<'a>(v: &'a serde_json::Value, key: &str) -> (r: Option<&'a serde_json::Value>)
    ensures
        r matches Some(f) ==> obj_field(jmodel(*v), key@) == Some(jmodel(*f)),
        r is None ==> obj_field(jmodel(*v), key@) is None,
{
    v.get(key)
}

/// Relies on serde_json::Value::is_null.
#[verifier::external_body]
pub(crate) fn jis_null(v: &serde_json::Value) -> (r: bool)
    ensures
        r == (jmodel(*v) is Null),
{
    v.is_null()
}

/// Relies on serde_json::Value::as_str: `Some` exactly for a string value.
#[verifier::external_body]
pub(crate) fn jas_str<'a>(v: &'a serde_json::Value) -> (r: Option<&'a str>)
    ensures
        r matches Some(s) ==> jmodel(*v) == JVal::Str(s@),
        r is None ==> !(jmodel(*v) is Str),
{
    v.as_str()
}

/// Relies on serde_json::Value::as_bool: `Some` exactly for a boolean.
#[verifier::external_body]
pub(crate) fn jas_bool(v: &serde_json::Value) -> (r: Option<bool>)
    ensures
        r matches Some(b) ==> jmodel(*v) == JVal::Bool(b),
        r is None ==> !(jmodel(*v) is Bool),
{
    v.as_bool()
}

/// Relies on serde_json::Value::as_i64: `Some` exactly for an
/// integer-represented number within `i64` range.
#[verifier::external_body]
pub(crate) fn jas_i64(v: &serde_json::Value) -> (r: Option<i64>)
    ensures
        r matches Some(n) ==> jmodel(*v) == JVal::Int(n as int),
        r is None ==> !(jmodel(*v) is Int && i64::MIN <= jmodel(*v)->Int_0 <= i64::MAX),
{
    v.as_i64()
}

/// Relies on serde_json::Value::as_u64: `Some` exactly for an
/// integer-represented number within `u64` range.
#[verifier::external_body]
pub(crate) fn jas_u64(v: &serde_json::Value) -> (r: Option<u64>)
    ensures
        r matches Some(n) ==> jmodel(*v) == JVal::Int(n as int),
        r is None ==> !(jmodel(*v) is Int && 0 <= jmodel(*v)->Int_0 <= u64::MAX),
{
    v.as_u64()
}

/// Relies on serde_json::Value::as_array: `Some` exactly for an array, with
/// one element per modeled element, in order.
#[verifier::external_body]
pub(crate) fn jas_array<'a>(v: &'a serde_json::Value) -> (r: Option<&'a Vec<serde_json::Value>>)
    ensures
        r matches Some(a) ==> jmodel(*v) is Arr && a@.len() == jmodel(*v)->Arr_0.len() && (forall|
            i: int,
        |
            0 <= i < a@.len() ==> jmodel(a@[i]) == jmodel(*v)->Arr_0[i]),
        r is None ==> !(jmodel(*v) is Arr),
{
    v.as_array()
}

/// Relies on serde_json::Value::as_object and serde_json::Map::iter:
/// `Some` exactly for an object; the entries carry each key of the object
/// once, bound to its value.
#[verifier::external_body]
pub(crate) fn jobj_entries(v: &serde_json::Value) -> (r: Option<
    Vec<(String, serde_json::Value)>,
>)
    ensures
        r matches Some(es) ==> jmodel(*v) is Obj && (forall|i: int|
            0 <= i < es@.len() ==> jmodel(*v)->Obj_0.contains_key(#[trigger] es@[i].0@)
                && jmodel(es@[i].1) == jmodel(*v)->Obj_0[es@[i].0@]) && (forall|i: int, j: int|
            0 <= i < j < es@.len() ==> es@[i].0@ != es@[j].0@) && (forall|k: Seq<char>|
            jmodel(*v)->Obj_0.contains_key(k) ==> exists|i: int|
                0 <= i < es@.len() && #[trigger] es@[i].0@ == k),
        r is None ==> !(jmodel(*v) is Obj),
{
    match v.as_object() {
        None => None,
        Some(m) => Some(m.iter().map(|(k, val)| (k.clone(), val.clone())).collect()),
    }
}

} // verus!
