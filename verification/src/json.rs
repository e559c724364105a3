//! JSON values as `serde_json` holds them, read member by member.

use vstd::prelude::*;

verus! {

/// `serde_json::Value`, a JSON value, carried without looking inside.
#[verifier::external_type_specification]
#[verifier::external_body]
pub struct ExJsonValue(serde_json::Value);

/// `serde_json::Error`, the reason a text is no JSON, carried without
/// looking inside.
#[verifier::external_type_specification]
#[verifier::external_body]
pub struct ExJsonError(serde_json::Error);

/// The members of a JSON object that hold a string, by their keys. A value
/// that is no object has none.
pub uninterp spec fn json_texts(value: serde_json::Value) -> Map<Seq<char>, Seq<char>>;

/// The members of a JSON object that hold an integer from 0 to `u64::MAX`,
/// by their keys.
pub uninterp spec fn json_numbers(value: serde_json::Value) -> Map<Seq<char>, int>;

/// The members of a JSON object that hold `true` or `false`, by their keys.
pub uninterp spec fn json_flags(value: serde_json::Value) -> Map<Seq<char>, bool>;

/// The boolean members, by their keys, of the JSON value that `body`
/// writes; `None` where `body` is no JSON text.
pub uninterp spec fn parsed_flags(body: Seq<u8>) -> Option<Map<Seq<char>, bool>>;

/// Parses a JSON text with `serde_json::from_slice`. Whether the bytes
/// parse, and to which value, depends on the bytes alone; of the value, its
/// boolean members are named.
#[verifier::external_body]
pub(crate) fn parse_json(body: &[u8]) -> (parsed: Result<serde_json::Value, serde_json::Error>)
    ensures
        match parsed {
            Ok(value) => parsed_flags(body@) == Some(json_flags(value)),
            Err(_) => parsed_flags(body@).is_none(),
        },
{
    serde_json::from_slice(body)
}

/// Reads a string member with `serde_json::Value::get` and `as_str`: the
/// string under `key` where the value is an object that has one there.
#[verifier::external_body]
pub(crate) fn text_member(value: &serde_json::Value, key: &str) -> (member: Option<String>)
    ensures
        match member {
            Some(text) => json_texts(*value).dom().contains(key@) && json_texts(*value)[key@]
                == text@,
            None => !json_texts(*value).dom().contains(key@),
        },
{
    value.get(key).and_then(|m| m.as_str()).map(|text| text.to_owned())
}

/// Reads an unsigned integer member with `serde_json::Value::get` and
/// `as_u64`.
#[verifier::external_body]
pub(crate) fn number_member(value: &serde_json::Value, key: &str) -> (member: Option<u64>)
    ensures
        match member {
            Some(n) => json_numbers(*value).dom().contains(key@) && json_numbers(*value)[key@]
                == n,
            None => !json_numbers(*value).dom().contains(key@),
        },
{
    value.get(key).and_then(|m| m.as_u64())
}

/// Reads a boolean member with `serde_json::Value::get` and `as_bool`.
#[verifier::external_body]
pub(crate) fn flag_member(value: &serde_json::Value, key: &str) -> (member: Option<bool>)
    ensures
        match member {
            Some(b) => json_flags(*value).dom().contains(key@) && json_flags(*value)[key@] == b,
            None => !json_flags(*value).dom().contains(key@),
        },
{
    value.get(key).and_then(|m| m.as_bool())
}

} // verus!
