//! Reading members out of JSON documents.
//!
//! A document is held as a `serde_json::Value`, which stays opaque here: what it holds is
//! spoken of through [`member_of`], [`text_of`] and [`truth_of`].

use crate::api::text_view;
use vstd::prelude::*;
use vstd::string::*;

verus! {

/// A JSON value as `serde_json` has it.
#[verifier::external_type_specification]
#[verifier::external_body]
pub struct ExValue(serde_json::Value);

/// The document that `text` is in JSON, if it is one.
pub uninterp spec fn parsed_json(text: Seq<char>) -> Option<serde_json::Value>;

/// The member `key` of `value`: there is one where `value` is an object that has a member of
/// that name.
pub uninterp spec fn member_of(value: serde_json::Value, key: Seq<char>) -> Option<
    serde_json::Value,
>;

/// The text of `value`, where `value` is a string.
pub uninterp spec fn text_of(value: serde_json::Value) -> Option<Seq<char>>;

/// The truth value of `value`, where `value` is `true` or `false`.
pub uninterp spec fn truth_of(value: serde_json::Value) -> Option<bool>;

/// The text of the member `key` of `value`: there is one where `value` is an object that has a
/// member of that name, and that member is a string.
pub open spec fn string_member(value: serde_json::Value, key: Seq<char>) -> Option<Seq<char>> {
    match member_of(value, key) {
        Some(member) => text_of(member),
        None => None,
    }
}

/// The truth value of the member `key` of `value`: there is one where `value` is an object that
/// has a member of that name, and that member is `true` or `false`.
pub open spec fn bool_member(value: serde_json::Value, key: Seq<char>) -> Option<bool> {
    match member_of(value, key) {
        Some(member) => truth_of(member),
        None => None,
    }
}

/// The mathematical value of an optional reference to a document.
pub open spec fn found(member: Option<&serde_json::Value>) -> Option<serde_json::Value> {
    match member {
        Some(value) => Some(*value),
        None => None,
    }
}

/// Parses a text with `serde_json::from_str`, as a `serde_json::Value`; the reason for which
/// a text is refused is dropped.
///
/// The contract only gives the result its name: whether a text is a JSON document, and which,
/// is left to `serde_json`.
#[verifier::external_body]
fn parse(text: &str) -> (value: Option<serde_json::Value>)
    ensures
        value == parsed_json(text@),
{
    serde_json::from_str(text).ok()
}

/// Looks a member up by its name with `serde_json::Value::get`.
///
/// The contract only gives the result its name.
#[verifier::external_body]
fn member<'a>(value: &'a serde_json::Value, key: &str) -> (member: Option<&'a serde_json::Value>)
    ensures
        found(member) == member_of(*value, key@),
{
    value.get(key)
}

/// Takes the text of a string with `serde_json::Value::as_str`.
///
/// The contract only gives the result its name.
#[verifier::external_body]
fn as_text(value: &serde_json::Value) -> (text: Option<String>)
    ensures
        text_view(text) == text_of(*value),
{
    Some(value.as_str()?.to_owned())
}

/// Takes the truth value of `true` or `false` with `serde_json::Value::as_bool`.
///
/// The contract only gives the result its name.
#[verifier::external_body]
fn as_truth(value: &serde_json::Value) -> (flag: Option<bool>)
    ensures
        flag == truth_of(*value),
{
    value.as_bool()
}

/// The text of the member `key` of `value`, where it has such a member and it is a string.
fn member_text(value: &serde_json::Value, key: &str) -> (text: Option<String>)
    ensures
        text_view(text) == string_member(*value, key@),
{
    match member(value, key) {
        Some(found) => as_text(found),
        None => None,
    }
}

/// The truth value of the member `key` of `value`, where it has such a member and it is `true`
/// or `false`.
fn member_bool(value: &serde_json::Value, key: &str) -> (flag: Option<bool>)
    ensures
        flag == bool_member(*value, key@),
{
    match member(value, key) {
        Some(found) => as_truth(found),
        None => None,
    }
}

/// The text of a member that may be missing, with `default` in its place.
pub open spec fn text_or(member: Option<Seq<char>>, default: Seq<char>) -> Seq<char> {
    match member {
        Some(text) => text,
        None => default,
    }
}

/// The text of the member `key` of `value`; `default` where it has no such member or the
/// member is no string.
pub fn string_or(value: &serde_json::Value, key: &str, default: &str) -> (text: String)
    ensures
        text@ == text_or(string_member(*value, key@), default@),
{
    match member_text(value, key) {
        Some(text) => text,
        None => String::from_str(default),
    }
}

/// The truth value of the member `key` of `value`; `false` where it has no such member or the
/// member is no truth value.
pub fn bool_or_false(value: &serde_json::Value, key: &str) -> (flag: bool)
    ensures
        flag == (bool_member(*value, key@) == Some(true)),
{
    match member_bool(value, key) {
        Some(flag) => flag,
        None => false,
    }
}

/// The two texts, where both are there.
pub open spec fn both(first: Option<Seq<char>>, second: Option<Seq<char>>) -> Option<
    (Seq<char>, Seq<char>),
> {
    match (first, second) {
        (Some(a), Some(b)) => Some((a, b)),
        _ => None,
    }
}

/// The mathematical value of an optional pair of texts.
pub open spec fn pair_view(pair: Option<(String, String)>) -> Option<(Seq<char>, Seq<char>)> {
    match pair {
        Some((a, b)) => Some((a@, b@)),
        None => None,
    }
}

/// Pairs two texts where both are there.
pub fn both_present(first: Option<String>, second: Option<String>) -> (pair: Option<
    (String, String),
>)
    ensures
        pair_view(pair) == both(text_view(first), text_view(second)),
{
    match (first, second) {
        (Some(a), Some(b)) => Some((a, b)),
        _ => None,
    }
}

/// The user name and the password that a document holds: its string members `username` and
/// `password`, where it has both.
pub open spec fn credentials_in(document: Option<serde_json::Value>) -> Option<
    (Seq<char>, Seq<char>),
> {
    match document {
        Some(value) => both(string_member(value, "username"@), string_member(value, "password"@)),
        None => None,
    }
}

/// The user name and the password in the text of a configuration file: the string members
/// `username` and `password` of the JSON document that it is, where it is one and has both.
pub fn credentials_from(content: &str) -> (pair: Option<(String, String)>)
    ensures
        pair_view(pair) == credentials_in(parsed_json(content@)),
{
    match parse(content) {
        Some(value) => {
            let username = member_text(&value, "username");
            let password = member_text(&value, "password");
            both_present(username, password)
        },
        None => None,
    }
}

} // verus!
