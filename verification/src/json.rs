//! JSON documents as `serde_json` parses them, and their mathematical model.

use crate::error::DecodeError;
use serde_json::Value;
use vstd::prelude::*;

verus! {

/// The mathematical content of a JSON document.
pub enum Json {
    Null,
    Bool(bool),
    /// A number that the parser holds as an integer, between `i64::MIN` and
    /// `u64::MAX`.
    Int(int),
    /// A number that the parser holds as a float, `-0` among them; its value
    /// is not modelled.
    Float,
    Str(Seq<char>),
    Array(Seq<Json>),
    Object(Map<Seq<char>, Json>),
}

impl Json {
    /// The document is an object with a member under `key`.
    pub open spec fn has(self, key: Seq<char>) -> bool {
        self is Object && self->Object_0.contains_key(key)
    }

    /// The member under `key` of an object that has one.
    pub open spec fn at(self, key: Seq<char>) -> Json {
        self->Object_0[key]
    }

    /// There is no member under `key`, or it is `null`.
    pub open spec fn absent(self, key: Seq<char>) -> bool {
        !self.has(key) || self.at(key) is Null
    }
}

#[verifier::external_type_specification]
#[verifier::external_body]
pub struct ExValue(serde_json::Value);

/// What a `serde_json::Value` holds.
pub uninterp spec fn json_of(value: Value) -> Json;

/// What `serde_json::from_slice` makes of a text: the document it reads, or
/// `None` where the bytes are not exactly one JSON document.
pub uninterp spec fn json_parse(bytes: Seq<u8>) -> Option<Json>;

/// The contents of a vector of values, one by one.
pub open spec fn jsons_of(values: Seq<Value>) -> Seq<Json> {
    Seq::new(values.len(), |i: int| json_of(values[i]))
}

/// `serde_json::from_slice` into a `Value`. The parser's verdict depends on
/// the bytes alone; the contract gives it the name `json_parse`.
#[verifier::external_body]
fn from_slice(bytes: &[u8]) -> (r: Option<Value>)
    ensures
        match r {
            Some(v) => json_parse(bytes@) == Some(json_of(v)),
            None => json_parse(bytes@) is None,
        },
{
    serde_json::from_slice::<Value>(bytes).ok()
}

/// `Value::get` with a string key: the member of an object under that key,
/// `None` for a value that is no object or has no such member.
#[verifier::external_body]
pub(crate) fn member<'a>(value: &'a Value, key: &str) -> (r: Option<&'a Value>)
    ensures
        match r {
            Some(m) => json_of(*value).has(key@) && json_of(*m) == json_of(*value).at(key@),
            None => !json_of(*value).has(key@),
        },
{
    value.get(key)
}

/// `Value::as_str`: the text of a string, `None` for any other value.
#[verifier::external_body]
pub(crate) fn as_str<'a>(value: &'a Value) -> (r: Option<&'a str>)
    ensures
        match r {
            Some(s) => json_of(*value) == Json::Str(s@),
            None => !(json_of(*value) is Str),
        },
{
    value.as_str()
}

/// `Value::as_u64`: an integer that is not negative, `None` for any other
/// value.
#[verifier::external_body]
pub(crate) fn as_u64(value: &Value) -> (r: Option<u64>)
    ensures
        match r {
            Some(n) => json_of(*value) == Json::Int(n as int),
            None => !(json_of(*value) is Int && 0 <= json_of(*value)->Int_0 <= u64::MAX),
        },
{
    value.as_u64()
}

/// `Value::as_i64`: an integer that fits `i64`, `None` for any other value.
#[verifier::external_body]
pub(crate) fn as_i64(value: &Value) -> (r: Option<i64>)
    ensures
        match r {
            Some(n) => json_of(*value) == Json::Int(n as int),
            None => !(json_of(*value) is Int && i64::MIN <= json_of(*value)->Int_0 <= i64::MAX),
        },
{
    value.as_i64()
}

/// `Value::as_bool`: the truth value of a boolean, `None` for any other
/// value.
#[verifier::external_body]
pub(crate) fn as_bool(value: &Value) -> (r: Option<bool>)
    ensures
        match r {
            Some(b) => json_of(*value) == Json::Bool(b),
            None => !(json_of(*value) is Bool),
        },
{
    value.as_bool()
}

/// `Value::as_array`: the elements of an array in order, `None` for any
/// other value.
#[verifier::external_body]
pub(crate) fn as_array<'a>(value: &'a Value) -> (r: Option<&'a Vec<Value>>)
    ensures
        match r {
            Some(items) => json_of(*value) == Json::Array(jsons_of(items@)),
            None => !(json_of(*value) is Array),
        },
{
    value.as_array()
}

/// `Value::is_null`: whether the value is `null`.
#[verifier::external_body]
pub(crate) fn is_null(value: &Value) -> (r: bool)
    ensures
        r == (json_of(*value) is Null),
{
    value.is_null()
}

/// Parses `bytes` as one JSON document.
pub fn parse(bytes: &[u8]) -> (r: Result<Value, DecodeError>)
    ensures
        match r {
            Ok(v) => json_parse(bytes@) == Some(json_of(v)),
            Err(e) => json_parse(bytes@) is None && e == DecodeError::Syntax,
        },
{
    match from_slice(bytes) {
        Some(v) => Ok(v),
        None => Err(DecodeError::Syntax),
    }
}

} // verus!
