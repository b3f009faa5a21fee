//! Typed reads of the members of a JSON object, each with the rule that
//! says when the member is acceptable.
use crate::json::{field, get_field, JsonValue};
use crate::numbers::{
    decimal_text, from_str, from_str_unsigned, i64_of_text, timestamp_text, u64_of_text, uuid_text,
    Decimal, Timestamp, Uuid,
};
use vstd::prelude::*;
use vstd::string::*;

verus! {

/// Whether a string holds exactly the characters of `lit`.
pub fn text_is(s: &String, lit: &str) -> (r: bool)
    ensures
        r == (s@ == lit@),
{
    *s == String::from_str(lit)
}

/// The member `k`, when it is a string.
pub open spec fn get_str(d: JsonValue, k: Seq<char>) -> Option<String> {
    match field(d, k) {
        Some(JsonValue::Str(s)) => Some(s),
        _ => None,
    }
}

/// The member `k` as an optional string: absent or `null` is `None`, a string
/// is `Some`; the outer `None` marks any other value.
pub open spec fn get_opt_str(d: JsonValue, k: Seq<char>) -> Option<Option<String>> {
    match field(d, k) {
        None => Some(None),
        Some(JsonValue::Null) => Some(None),
        Some(JsonValue::Str(s)) => Some(Some(s)),
        _ => None,
    }
}

pub open spec fn get_bool(d: JsonValue, k: Seq<char>) -> Option<bool> {
    match field(d, k) {
        Some(JsonValue::Bool(b)) => Some(b),
        _ => None,
    }
}

/// The member `k`, a string that writes a decimal number.
pub open spec fn get_decimal(d: JsonValue, k: Seq<char>) -> Option<Decimal> {
    match get_str(d, k) {
        Some(s) => decimal_text(s@),
        None => None,
    }
}

/// The member `k`, absent, `null`, or a string that writes a decimal number.
pub open spec fn get_opt_decimal(d: JsonValue, k: Seq<char>) -> Option<Option<Decimal>> {
    match get_opt_str(d, k) {
        Some(Some(s)) => match decimal_text(s@) {
            Some(x) => Some(Some(x)),
            None => None,
        },
        Some(None) => Some(None),
        None => None,
    }
}

pub open spec fn get_timestamp(d: JsonValue, k: Seq<char>) -> Option<Timestamp> {
    match get_str(d, k) {
        Some(s) => timestamp_text(s@),
        None => None,
    }
}

pub open spec fn get_opt_timestamp(d: JsonValue, k: Seq<char>) -> Option<Option<Timestamp>> {
    match get_opt_str(d, k) {
        Some(Some(s)) => match timestamp_text(s@) {
            Some(x) => Some(Some(x)),
            None => None,
        },
        Some(None) => Some(None),
        None => None,
    }
}

pub open spec fn get_uuid(d: JsonValue, k: Seq<char>) -> Option<Uuid> {
    match get_str(d, k) {
        Some(s) => uuid_text(s@),
        None => None,
    }
}

pub open spec fn get_opt_uuid(d: JsonValue, k: Seq<char>) -> Option<Option<Uuid>> {
    match get_opt_str(d, k) {
        Some(Some(s)) => match uuid_text(s@) {
            Some(x) => Some(Some(x)),
            None => None,
        },
        Some(None) => Some(None),
        None => None,
    }
}

/// The member `k`, a string that writes an `i64` (`"100"`).
pub open spec fn get_i64_text(d: JsonValue, k: Seq<char>) -> Option<i64> {
    match get_str(d, k) {
        Some(s) => i64_of_text(s@),
        None => None,
    }
}

/// The member `k`, a string that writes a `u64`.
pub open spec fn get_u64_text(d: JsonValue, k: Seq<char>) -> Option<u64> {
    match get_str(d, k) {
        Some(s) => u64_of_text(s@),
        None => None,
    }
}

pub fn read_str(d: &JsonValue, k: &str) -> (r: Option<String>)
    ensures
        r == get_str(*d, k@),
{
    match get_field(d, k) {
        Some(JsonValue::Str(s)) => Some(s.clone()),
        _ => None,
    }
}

pub fn read_opt_str(d: &JsonValue, k: &str) -> (r: Option<Option<String>>)
    ensures
        r == get_opt_str(*d, k@),
{
    match get_field(d, k) {
        None => Some(None),
        Some(JsonValue::Null) => Some(None),
        Some(JsonValue::Str(s)) => Some(Some(s.clone())),
        _ => None,
    }
}

pub fn read_bool(d: &JsonValue, k: &str) -> (r: Option<bool>)
    ensures
        r == get_bool(*d, k@),
{
    match get_field(d, k) {
        Some(JsonValue::Bool(b)) => Some(*b),
        _ => None,
    }
}

pub fn read_decimal(d: &JsonValue, k: &str) -> (r: Option<Decimal>)
    ensures
        r == get_decimal(*d, k@),
{
    match get_field(d, k) {
        Some(JsonValue::Str(s)) => Decimal::parse(s.as_str()),
        _ => None,
    }
}

pub fn read_opt_decimal(d: &JsonValue, k: &str) -> (r: Option<Option<Decimal>>)
    ensures
        r == get_opt_decimal(*d, k@),
{
    match get_field(d, k) {
        None => Some(None),
        Some(JsonValue::Null) => Some(None),
        Some(JsonValue::Str(s)) => match Decimal::parse(s.as_str()) {
            Some(x) => Some(Some(x)),
            None => None,
        },
        _ => None,
    }
}

pub fn read_timestamp(d: &JsonValue, k: &str) -> (r: Option<Timestamp>)
    ensures
        r == get_timestamp(*d, k@),
{
    match get_field(d, k) {
        Some(JsonValue::Str(s)) => Timestamp::parse(s.as_str()),
        _ => None,
    }
}

pub fn read_opt_timestamp(d: &JsonValue, k: &str) -> (r: Option<Option<Timestamp>>)
    ensures
        r == get_opt_timestamp(*d, k@),
{
    match get_field(d, k) {
        None => Some(None),
        Some(JsonValue::Null) => Some(None),
        Some(JsonValue::Str(s)) => match Timestamp::parse(s.as_str()) {
            Some(x) => Some(Some(x)),
            None => None,
        },
        _ => None,
    }
}

pub fn read_uuid(d: &JsonValue, k: &str) -> (r: Option<Uuid>)
    ensures
        r == get_uuid(*d, k@),
{
    match get_field(d, k) {
        Some(JsonValue::Str(s)) => Uuid::parse(s.as_str()),
        _ => None,
    }
}

pub fn read_opt_uuid(d: &JsonValue, k: &str) -> (r: Option<Option<Uuid>>)
    ensures
        r == get_opt_uuid(*d, k@),
{
    match get_field(d, k) {
        None => Some(None),
        Some(JsonValue::Null) => Some(None),
        Some(JsonValue::Str(s)) => match Uuid::parse(s.as_str()) {
            Some(x) => Some(Some(x)),
            None => None,
        },
        _ => None,
    }
}

pub fn read_i64_text(d: &JsonValue, k: &str) -> (r: Option<i64>)
    ensures
        r == get_i64_text(*d, k@),
{
    match get_field(d, k) {
        Some(JsonValue::Str(s)) => from_str(s.as_str()),
        _ => None,
    }
}

pub fn read_u64_text(d: &JsonValue, k: &str) -> (r: Option<u64>)
    ensures
        r == get_u64_text(*d, k@),
{
    match get_field(d, k) {
        Some(JsonValue::Str(s)) => from_str_unsigned(s.as_str()),
        _ => None,
    }
}

} // verus!
