//! Trusted view of `serde_json` values.
//!
//! Response bodies are parsed by `serde_json`, as an opaque tree of
//! [`serde_json::Value`] nodes. What such a node holds is given a
//! mathematical name, [`value_model`], and each accessor the library uses is
//! wrapped with a contract over that name, taken from the crate's source.
//! The verified extraction logic in [`crate::parse`] works only through
//! these wrappers.

use vstd::prelude::*;

verus! {

/// The mathematical value of a JSON document.
///
/// Numbers: `serde_json` stores an integer in a 64-bit word (unsigned or
/// signed) and everything else as a float. [`JsonModel::IntNum`] is the
/// mathematical value of an integer node; a float node is modelled as
/// [`JsonModel::FloatNum`] with its value left open, since no verified logic
/// reads one. Objects are maps with unique keys.
pub enum JsonModel {
    Null,
    Bool(bool),
    IntNum(int),
    FloatNum,
    Text(Seq<char>),
    Arr(Seq<JsonModel>),
    Obj(Map<Seq<char>, JsonModel>),
}

#[verifier::external_type_specification]
#[verifier::external_body]
pub struct ExValue(serde_json::Value);

/// The [`JsonModel`] a [`serde_json::Value`] holds.
pub uninterp spec fn value_model(v: serde_json::Value) -> JsonModel;

/// What parsing a text as JSON yields: `None` when the text is not valid
/// JSON, otherwise the model of the parsed document. Parsing depends on the
/// text alone.
pub uninterp spec fn json_of(s: Seq<char>) -> Option<JsonModel>;

/// Relies on `serde_json::from_str::<Value>`: whether and how a text parses
/// as JSON is a function of the text alone.
#[verifier::external_body]
pub(crate) fn parse_json(s: &str) -> (r: Result<serde_json::Value, String>)
    ensures
        r is Ok <==> json_of(s@) is Some,
        r matches Ok(v) ==> json_of(s@) == Some(value_model(v)),
{
    match serde_json::from_str::<serde_json::Value>(s) {
        Ok(v) => Ok(v),
        Err(e) => Err(e.to_string()),
    }
}

/// Relies on `serde_json::Value::get` with a string key: a key lookup on an
/// object node, `None` on every other node.
#[verifier::external_body]
pub(crate) fn value_get<'a>(v: &'a serde_json::Value, key: &str) -> (r: Option<
    &'a serde_json::Value,
>)
    ensures
        r is Some <==> (value_model(*v) matches JsonModel::Obj(f) && f.contains_key(key@)),
        r matches Some(w) ==> (value_model(*v) matches JsonModel::Obj(f) && f.contains_key(key@)
            && value_model(*w) == f[key@]),
{
    v.get(key)
}

/// Relies on `serde_json::Value::as_str`: the borrowed text of a string
/// node, `None` on every other node.
#[verifier::external_body]
pub(crate) fn value_as_str<'a>(v: &'a serde_json::Value) -> (r: Option<&'a str>)
    ensures
        r is Some <==> value_model(*v) is Text,
        r matches Some(s) ==> value_model(*v) == JsonModel::Text(s@),
{
    v.as_str()
}

/// Relies on `serde_json::Value::as_u64`: the value of an integer node that
/// fits in a `u64` — `serde_json` keeps every non-negative integer node in a
/// `u64` — and `None` otherwise.
#[verifier::external_body]
pub(crate) fn value_as_u64(v: &serde_json::Value) -> (r: Option<u64>)
    ensures
        r == (match value_model(*v) {
            JsonModel::IntNum(i) => if 0 <= i <= u64::MAX { Some(i as u64) } else { None },
            _ => None,
        }),
{
    v.as_u64()
}

/// Relies on `serde_json::Value::as_i64`: the value of an integer node that
/// fits in an `i64` — negative integer nodes are always kept in an `i64` —
/// and `None` otherwise.
#[verifier::external_body]
pub(crate) fn value_as_i64(v: &serde_json::Value) -> (r: Option<i64>)
    ensures
        r == (match value_model(*v) {
            JsonModel::IntNum(i) => if i64::MIN <= i <= i64::MAX { Some(i as i64) } else { None },
            _ => None,
        }),
{
    v.as_i64()
}

/// Relies on `serde_json::Value::as_array`: the element vector of an array
/// node, `None` on every other node.
#[verifier::external_body]
pub(crate) fn value_as_array<'a>(v: &'a serde_json::Value) -> (r: Option<
    &'a Vec<serde_json::Value>,
>)
    ensures
        r is Some <==> value_model(*v) is Arr,
        r matches Some(a) ==> (value_model(*v) matches JsonModel::Arr(s) && a@.len() == s.len()
            && (forall|i: int| 0 <= i < s.len() ==> #[trigger] value_model(a@[i]) == s[i])),
{
    v.as_array()
}

/// Relies on `serde_json::Value::is_null`: true exactly on the null node.
#[verifier::external_body]
pub(crate) fn value_is_null(v: &serde_json::Value) -> (r: bool)
    ensures
        r == (value_model(*v) is Null),
{
    v.is_null()
}

} // verus!
