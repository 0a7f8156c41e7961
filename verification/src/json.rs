//! A mathematical model of JSON values, and trusted bindings to the JSON
//! library that the search client decodes index responses with.
//!
//! `serde_json::Value` is opaque to the verifier; `jv_of` names the value a
//! `Value` stands for, as a `Jv` tree, and every binding below states its
//! behaviour over that name.

use vstd::prelude::*;

verus! {

/// The shape of a JSON value: the model the contracts speak of.
pub enum Jv {
    Null,
    Bool(bool),
    /// A number stored as an integer.
    Int(int),
    /// A number not stored as an integer.
    NonIntNum,
    Str(Seq<char>),
    Arr(Seq<Jv>),
    Obj(Map<Seq<char>, Jv>),
}

#[verifier::external_type_specification]
#[verifier::external_body]
pub struct ExValue(serde_json::Value);

/// The `Jv` tree that a `serde_json::Value` holds.
pub uninterp spec fn jv_of(v: serde_json::Value) -> Jv;

/// What parsing a text as JSON yields: `None` when the text is not valid JSON.
pub uninterp spec fn json_of(s: Seq<char>) -> Option<Jv>;

/// Relies on `serde_json::from_str::<Value>`: the parse is a function of the
/// text alone, and succeeds exactly on valid JSON.
#[verifier::external_body]
pub fn json_parse(s: &str) -> (r: Option<serde_json::Value>)
    ensures
        (r is Some) == (json_of(s@) is Some),
        r is Some ==> jv_of(r->0) == json_of(s@)->0,
{
    serde_json::from_str(s).ok()
}

/// Relies on `serde_json::Value::get` with a string index: on an object it
/// looks the key up; on any other value it returns `None`.
#[verifier::external_body]
pub fn json_get<'a>(v: &'a serde_json::Value, key: &str) -> (r: Option<&'a serde_json::Value>)
    ensures
        match jv_of(*v) {
            Jv::Obj(m) => {
                &&& (r is Some) == m.contains_key(key@)
                &&& (r matches Some(w) ==> jv_of(*w) == m[key@])
            },
            _ => r is None,
        },
{
    v.get(key)
}

/// Relies on `serde_json::Value::as_str`: `Some` exactly on a JSON string.
#[verifier::external_body]
pub fn json_as_str<'a>(v: &'a serde_json::Value) -> (r: Option<&'a str>)
    ensures
        (r is Some) == (jv_of(*v) is Str),
        (r matches Some(s) ==> s@ == jv_of(*v)->Str_0),
{
    v.as_str()
}

/// Relies on `serde_json::Value::as_u64`: `Some` exactly on a number stored
/// as a non-negative integer.
#[verifier::external_body]
pub fn json_as_u64(v: &serde_json::Value) -> (r: Option<u64>)
    ensures
        (r is Some) == (jv_of(*v) matches Jv::Int(i) && 0 <= i <= u64::MAX),
        (r matches Some(n) ==> jv_of(*v) == Jv::Int(n as int)),
{
    v.as_u64()
}

/// Relies on `serde_json::Value::as_array`: `Some` exactly on a JSON array,
/// with the elements in order.
#[verifier::external_body]
pub fn json_as_array<'a>(v: &'a serde_json::Value) -> (r: Option<&'a Vec<serde_json::Value>>)
    ensures
        (r is Some) == (jv_of(*v) is Arr),
        (r matches Some(a) ==> {
            let m = jv_of(*v)->Arr_0;
            &&& a@.len() == m.len()
            &&& forall|i: int| 0 <= i < m.len() ==> jv_of(#[trigger] a@[i]) == m[i]
        }),
{
    v.as_array()
}

/// The field of an object, if the value is an object that has it.
pub open spec fn jv_field(jv: Jv, key: Seq<char>) -> Option<Jv> {
    match jv {
        Jv::Obj(m) => if m.contains_key(key) {
            Some(m[key])
        } else {
            None
        },
        _ => None,
    }
}

/// A field that is present and holds a string.
pub open spec fn jv_str_field(jv: Jv, key: Seq<char>) -> Option<Seq<char>> {
    match jv_field(jv, key) {
        Some(Jv::Str(s)) => Some(s),
        _ => None,
    }
}

/// Looks a field up and keeps it only when it is a string.
pub fn get_str_field<'a>(v: &'a serde_json::Value, key: &str) -> (r: Option<&'a str>)
    ensures
        (r is Some) == (jv_str_field(jv_of(*v), key@) is Some),
        (r matches Some(s) ==> jv_str_field(jv_of(*v), key@) == Some(s@)),
{
    match json_get(v, key) {
        Some(w) => json_as_str(w),
        None => None,
    }
}

} // verus!
