//! JSON values as the `serde_json` crate reads and writes them.

use serde_json::Value;
use vstd::prelude::*;

verus! {

/// A JSON value, `Value` of `serde_json`.
#[verifier::external_type_specification]
#[verifier::external_body]
pub struct ExJsonValue(Value);

/// The value that `text` denotes as JSON; `None` where it is not JSON.
pub uninterp spec fn json_parsed(text: Seq<char>) -> Option<Value>;

/// The member `key` of the JSON object `value`; the JSON `null` where
/// `value` is no object or has no such member.
pub uninterp spec fn json_member(value: Value, key: Seq<char>) -> Value;

/// The unsigned integer that `value` is; `None` where it is anything else.
pub uninterp spec fn json_unsigned(value: Value) -> Option<u64>;

/// The JSON text that denotes `value`.
pub uninterp spec fn json_text(value: Value) -> Seq<char>;

/// Calls `serde_json::from_str` for a `serde_json::Value`.
#[verifier::external_body]
pub(crate) fn parse_json(text: &str) -> (value: Option<Value>)
    ensures
        value == json_parsed(text@),
{
    serde_json::from_str::<Value>(text).ok()
}

/// Indexes a `serde_json::Value` by a string, which yields `Value::Null`
/// where the value is no object or lacks the member.
#[verifier::external_body]
pub(crate) fn member<'a>(value: &'a Value, key: &str) -> (field: &'a Value)
    ensures
        *field == json_member(*value, key@),
{
    &value[key]
}

/// Calls `Value::as_u64`.
#[verifier::external_body]
pub(crate) fn as_unsigned(value: &Value) -> (number: Option<u64>)
    ensures
        number == json_unsigned(*value),
{
    value.as_u64()
}

/// Calls `to_string` of a `serde_json::Value`, which writes the value out
/// as JSON text.
#[verifier::external_body]
pub(crate) fn to_text(value: &Value) -> (text: String)
    ensures
        text@ == json_text(*value),
{
    value.to_string()
}

} // verus!
