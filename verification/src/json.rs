//! JSON documents, read by `serde_json`.
use vstd::prelude::*;

verus! {

/// `serde_json::Value`, a parsed JSON value; nothing is said of what is inside.
#[verifier::external_type_specification]
#[verifier::external_body]
pub struct ExValue(serde_json::Value);

/// `serde_json::Error`, the reason why a text was refused; nothing is said of what is inside.
#[verifier::external_type_specification]
#[verifier::external_body]
pub struct ExJsonError(serde_json::Error);

/// What a JSON value holds, as far as this library reads it: booleans, strings and the
/// members of objects.
#[verifier::ext_equal]
pub enum Json {
    Bool(bool),
    Text(Seq<char>),
    Object(Map<Seq<char>, Json>),
    Other,
}

/// What a `serde_json::Value` holds.
pub uninterp spec fn json_of(value: serde_json::Value) -> Json;

/// What `serde_json` reads in `bytes`, or `None` where it refuses them: they are not one JSON
/// text, or one that is nested too deep for it.
pub uninterp spec fn json_text(bytes: Seq<u8>) -> Option<Json>;

/// `serde_json::from_slice::<serde_json::Value>`: whether it succeeds, and what the value
/// then holds, is a function of the bytes alone. Which bytes it accepts, and what they say, is
/// left to `serde_json`.
#[verifier::external_body]
pub(crate) fn parse(bytes: &[u8]) -> (r: Result<serde_json::Value, serde_json::Error>)
    ensures
        match r {
            Ok(value) => json_text(bytes@) == Some(json_of(value)),
            Err(_) => json_text(bytes@) is None,
        },
{
    serde_json::from_slice(bytes)
}

/// `serde_json::Value::get` with a string: the member of an object that has this key, and
/// nothing where there is none or the value is no object.
#[verifier::external_body]
pub(crate) fn member<'a>(value: &'a serde_json::Value, key: &str) -> (r: Option<
    &'a serde_json::Value,
>)
    ensures
        match r {
            Some(found) => json_of(*value) matches Json::Object(members) && members.dom().contains(
                key@,
            ) && members[key@] == json_of(*found),
            None => !(json_of(*value) matches Json::Object(members) && members.dom().contains(
                key@,
            )),
        },
{
    value.get(key)
}

/// `serde_json::Value::as_bool`: the boolean that the value is, if it is one.
#[verifier::external_body]
pub(crate) fn as_bool(value: &serde_json::Value) -> (r: Option<bool>)
    ensures
        match r {
            Some(b) => json_of(*value) == Json::Bool(b),
            None => !(json_of(*value) is Bool),
        },
{
    value.as_bool()
}

/// `serde_json::Value::as_str`: the string that the value is, if it is one.
#[verifier::external_body]
pub(crate) fn as_text<'a>(value: &'a serde_json::Value) -> (r: Option<&'a str>)
    ensures
        match r {
            Some(s) => json_of(*value) == Json::Text(s@),
            None => !(json_of(*value) is Text),
        },
{
    value.as_str()
}

} // verus!
