//! What the library takes on trust from `serde_json` and from `String`.
//!
//! Nothing in this file is proved. Each item states what the named outside
//! function does, and the rest of the library is verified against these
//! statements.

use std::collections::HashMap;
use vstd::prelude::*;

verus! {

/// `serde_json::Value`, a JSON value of any shape. Verified code only carries
/// it; what it holds is read through [`member_names`].
#[verifier::external_type_specification]
#[verifier::external_body]
pub struct ExJsonValue(serde_json::Value);

/// `serde_json::Error`, the reason why a text was not accepted as JSON of the
/// wanted shape.
#[verifier::external_type_specification]
#[verifier::external_body]
pub struct ExJsonError(serde_json::Error);

/// The member names of a JSON object, in the order in which the object's map
/// yields them. `None` for a value that is not an object.
pub uninterp spec fn object_keys(value: serde_json::Value) -> Option<Seq<Seq<char>>>;

/// The string-to-string object that a JSON text denotes. `None` for a text
/// that `serde_json::from_str` does not accept as such an object.
pub uninterp spec fn parsed_fields(text: Seq<char>) -> Option<Map<Seq<char>, Seq<char>>>;

/// Calls `serde_json::Value::as_object` and, on the map it returns,
/// `serde_json::Map::keys`. The contract claims that the names come out as
/// [`object_keys`] has them, and that a value which is not an object gives
/// `None`.
#[verifier::external_body]
pub(crate) fn member_names(value: &serde_json::Value) -> (names: Option<Vec<String>>)
    ensures
        match names {
            Some(list) => object_keys(*value) == Some(list.deep_view()),
            None => object_keys(*value) is None,
        },
{
    match value.as_object() {
        Some(members) => Some(members.keys().cloned().collect()),
        None => None,
    }
}

/// Calls `serde_json::from_str` for a map from strings to strings. The
/// contract claims that the call succeeds exactly on the texts for which
/// [`parsed_fields`] has a map, and that it then returns that map.
#[verifier::external_body]
pub(crate) fn parse_fields(text: &str) -> (parsed: Result<
    HashMap<String, String>,
    serde_json::Error,
>)
    ensures
        match parsed {
            Ok(fields) => parsed_fields(text@) == Some(fields.deep_view()),
            Err(_) => parsed_fields(text@) is None,
        },
{
    serde_json::from_str(text)
}

/// `Clone::clone` of `serde_json::Value` returns a value equal to the one it
/// was given, member for member and in the same order.
pub assume_specification[ <serde_json::Value as Clone>::clone ](value: &serde_json::Value) -> (copy:
    serde_json::Value)
    ensures
        copy == *value,
;

/// `String::push` appends one character.
pub assume_specification[ String::push ](text: &mut String, ch: char)
    ensures
        final(text)@ == old(text)@.push(ch),
;

/// `String::pop` removes the last character and returns it, or returns `None`
/// and changes nothing when the string is empty.
pub assume_specification[ String::pop ](text: &mut String) -> (last: Option<char>)
    ensures
        match last {
            Some(ch) => old(text)@.len() > 0 && ch == old(text)@.last() && final(text)@ == old(
                text,
            )@.drop_last(),
            None => old(text)@.len() == 0 && final(text)@ == old(text)@,
        },
;

} // verus!
