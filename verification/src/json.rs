//! The boundary to `serde_json`.
//!
//! JSON values stay `serde_json::Value`s. Verus cannot look inside one, so
//! this module gives each value a mathematical model, [`Json`], and states
//! for every `serde_json` function the library calls what it does to that
//! model. None of these statements is proved: they are read off the
//! `serde_json` source.

use serde_json::Value;
use vstd::prelude::*;

verus! {

/// `serde_json::Value`: any JSON value.
#[verifier::external_type_specification]
#[verifier::external_body]
pub struct ExValue(Value);

/// `serde_json::Map`: the members of a JSON object.
#[verifier::external_type_specification]
#[verifier::external_body]
#[verifier::reject_recursive_types(K)]
#[verifier::reject_recursive_types(V)]
pub struct ExObject<K, V>(serde_json::Map<K, V>);

/// `serde_json::Error`: what parsing or writing JSON failed with.
#[verifier::external_type_specification]
#[verifier::external_body]
pub struct ExError(serde_json::Error);

/// A JSON value as a mathematical object.
pub enum Json {
    Null,
    Bool(bool),
    /// A number held as a 64-bit integer, signed or unsigned.
    Int(int),
    /// Any other number, by the text `serde_json` writes for it.
    Real(Seq<char>),
    Text(Seq<char>),
    Array(Seq<Json>),
    Object(Map<Seq<char>, Json>),
}

/// The member of `j` under `key`: present only if `j` is an object that has
/// that key.
pub open spec fn member_of(j: Json, key: Seq<char>) -> Option<Json> {
    match j {
        Json::Object(m) => if m.dom().contains(key) {
            Some(m[key])
        } else {
            None
        },
        _ => None,
    }
}

/// The JSON value that a `serde_json::Value` holds.
pub uninterp spec fn json_of(v: Value) -> Json;

/// The members that a `serde_json::Map` holds, by key.
pub uninterp spec fn members_of(m: serde_json::Map<String, Value>) -> Map<Seq<char>, Json>;

/// What `serde_json::from_str` makes of a text: the value it denotes, or the
/// parser's complaint.
pub uninterp spec fn parse_outcome(text: Seq<char>) -> Result<Json, Seq<char>>;

/// The message that a `serde_json::Error` displays.
pub uninterp spec fn error_text(e: serde_json::Error) -> Seq<char>;

/// What `serde_json::to_string` makes of a value: the compact text it writes,
/// or the writer's complaint. The text lists an object's members in the
/// order of their keys, as `serde_json` does without its feature
/// `preserve_order`; with that feature the order of insertion would count,
/// and the text would be no function of the value's model.
pub uninterp spec fn rendered(j: Json) -> Result<Seq<char>, Seq<char>>;

/// `serde_json::from_str::<Value>`. The outcome depends on the text alone;
/// a failure carries the error whose message `parse_outcome` names.
#[verifier::external_body]
pub(crate) fn parse(text: &str) -> (r: Result<Value, serde_json::Error>)
    ensures
        match r {
            Ok(v) => parse_outcome(text@) == Ok::<Json, Seq<char>>(json_of(v)),
            Err(e) => parse_outcome(text@) == Err::<Json, Seq<char>>(error_text(e)),
        },
{
    serde_json::from_str::<Value>(text)
}

/// `ToString::to_string` on a `serde_json::Error`: its displayed message.
#[verifier::external_body]
pub(crate) fn describe(e: &serde_json::Error) -> (s: String)
    ensures
        s@ == error_text(*e),
{
    e.to_string()
}

/// `Value::get` with a string key: the member under that key if the value is
/// an object that has it, nothing for any other value.
#[verifier::external_body]
pub(crate) fn member<'a>(v: &'a Value, key: &str) -> (r: Option<&'a Value>)
    ensures
        match r {
            Some(m) => member_of(json_of(*v), key@) == Some(json_of(*m)),
            None => member_of(json_of(*v), key@) is None,
        },
{
    v.get(key)
}

/// `Value::is_object`: whether the value is an object.
#[verifier::external_body]
pub(crate) fn is_object(v: &Value) -> (r: bool)
    ensures
        r == (json_of(*v) is Object),
{
    v.is_object()
}

/// `Value::as_str`: the text of a string value, nothing for any other value.
#[verifier::external_body]
pub(crate) fn as_text<'a>(v: &'a Value) -> (r: Option<&'a str>)
    ensures
        match r {
            Some(s) => json_of(*v) == Json::Text(s@),
            None => !(json_of(*v) is Text),
        },
{
    v.as_str()
}

/// `Value::as_array`: the items of an array value in order, nothing for any
/// other value.
#[verifier::external_body]
pub(crate) fn as_items<'a>(v: &'a Value) -> (r: Option<&'a Vec<Value>>)
    ensures
        match r {
            Some(items) => json_of(*v) == Json::Array(items@.map_values(|x: Value| json_of(x))),
            None => !(json_of(*v) is Array),
        },
{
    v.as_array()
}

/// `Clone::clone` on a `Value`: an equal value.
pub assume_specification[ <Value as Clone>::clone ](v: &Value) -> (r: Value)
    ensures
        r == *v,
;

/// `serde_json::Map::new`: a map without members.
#[verifier::external_body]
pub(crate) fn new_members() -> (r: serde_json::Map<String, Value>)
    ensures
        members_of(r) =~= Map::empty(),
{
    serde_json::Map::new()
}

/// `serde_json::Map::insert`: afterwards the key maps to the given value,
/// whether or not it was present before; every other member stays.
#[verifier::external_body]
pub(crate) fn put(m: &mut serde_json::Map<String, Value>, key: String, value: Value)
    ensures
        members_of(*final(m)) == members_of(*old(m)).insert(key@, json_of(value)),
{
    m.insert(key, value);
}

/// `Value::Object`: the object with exactly the members of the map.
#[verifier::external_body]
pub(crate) fn object(m: serde_json::Map<String, Value>) -> (v: Value)
    ensures
        json_of(v) == Json::Object(members_of(m)),
{
    Value::Object(m)
}

/// `Value::from` on an `i64`: the number with that integer value.
#[verifier::external_body]
pub(crate) fn integer(n: i64) -> (v: Value)
    ensures
        json_of(v) == Json::Int(n as int),
{
    Value::from(n)
}

/// `Value::from` on a `String`: the string value with that text.
#[verifier::external_body]
pub(crate) fn text(s: String) -> (v: Value)
    ensures
        json_of(v) == Json::Text(s@),
{
    Value::from(s)
}

/// `serde_json::to_string` on a `Value`. The outcome depends on the value
/// alone; a failure carries the error whose message `rendered` names.
#[verifier::external_body]
pub(crate) fn render(v: &Value) -> (r: Result<String, serde_json::Error>)
    ensures
        match r {
            Ok(s) => rendered(json_of(*v)) == Ok::<Seq<char>, Seq<char>>(s@),
            Err(e) => rendered(json_of(*v)) == Err::<Seq<char>, Seq<char>>(error_text(e)),
        },
{
    serde_json::to_string(v)
}

} // verus!
