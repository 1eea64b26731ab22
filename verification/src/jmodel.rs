//! Mathematical model of a parsed JSON document.
//!
//! Reply bodies are parsed by an outside JSON parser; its result is modeled
//! by [`JVal`], and the schema decoders state their contracts over this
//! model.

use vstd::prelude::*;

verus! {

/// A parsed JSON value.
///
/// Numbers that the parser represents exactly as integers are `Int`; any
/// other number (one carried in floating point) is `NonIntNum`, whose value
/// the schema never reads.  Objects keep the last value bound to a repeated
/// key.
pub enum JVal {
    Null,
    Bool(bool),
    Int(int),
    NonIntNum,
    Str(Seq<char>),
    Arr(Seq<JVal>),
    Obj(Map<Seq<char>, JVal>),
}

/// The value bound to a key of a JSON object, if the value is an object and
/// binds the key.
pub open spec fn obj_field(j: JVal, k: Seq<char>) -> Option<JVal> {
    match j {
        JVal::Obj(m) => if m.contains_key(k) {
            Some(m[k])
        } else {
            None
        },
        _ => None,
    }
}

/// The value bound to a key, with an explicit `null` treated as absence.
/// Optional schema fields read through this: a missing key and a `null`
/// value both decode to `None`.
pub open spec fn opt_field(j: JVal, k: Seq<char>) -> Option<JVal> {
    match obj_field(j, k) {
        Some(JVal::Null) => None,
        r => r,
    }
}

/// The string bound to a key, if the value is an object binding the key to
/// a string.
pub open spec fn str_field(j: JVal, k: Seq<char>) -> Option<Seq<char>> {
    match obj_field(j, k) {
        Some(JVal::Str(s)) => Some(s),
        _ => None,
    }
}

/// The boolean bound to a key, if the value is an object binding the key to
/// a boolean.
pub open spec fn bool_field(j: JVal, k: Seq<char>) -> Option<bool> {
    match obj_field(j, k) {
        Some(JVal::Bool(b)) => Some(b),
        _ => None,
    }
}

/// The integer bound to a key, if the value is an object binding the key to
/// an exactly-represented integer.
pub open spec fn int_field(j: JVal, k: Seq<char>) -> Option<int> {
    match obj_field(j, k) {
        Some(JVal::Int(n)) => Some(n),
        _ => None,
    }
}

/// An optional string field: `Some(None)` when the key is absent or null,
/// `Some(Some(s))` when it is a string, `None` when it is anything else.
pub open spec fn opt_str_field(j: JVal, k: Seq<char>) -> Option<Option<Seq<char>>> {
    match opt_field(j, k) {
        None => Some(None),
        Some(JVal::Str(s)) => Some(Some(s)),
        Some(_) => None,
    }
}

} // verus!
