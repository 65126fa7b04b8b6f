use crate::error::Error;
use vstd::prelude::*;
use vstd::string::*;

verus! {

#[verifier::external_type_specification]
#[verifier::external_body]
pub struct ExJsonValue(serde_json::Value);

/// The JSON value that `serde_json` reads from `text`, or `None` where it
/// reports an error (malformed JSON, or anything after the document).
pub uninterp spec fn json_parsed(text: Seq<char>) -> Option<serde_json::Value>;

/// The member that a JSON value holds under `key`: `None` unless the value
/// is an object with such a member.
pub uninterp spec fn json_member(value: serde_json::Value, key: Seq<char>) -> Option<
    serde_json::Value,
>;

/// The text of a JSON value: `None` unless the value is a string.
pub uninterp spec fn json_text(value: serde_json::Value) -> Option<Seq<char>>;

/// The JSON string literal, quotes and escapes included, that `serde_json`
/// writes for `text`, or `None` where it reports an error.
pub uninterp spec fn json_quoted(text: Seq<char>) -> Option<Seq<char>>;

/// `serde_json::from_str` at type `serde_json::Value`, its error dropped. The
/// contract only names what it returns: the same text always reads as the
/// same value, and fails on the same texts.
#[verifier::external_body]
fn parse_value(text: &str) -> (parsed: Option<serde_json::Value>)
    ensures
        parsed == json_parsed(text@),
{
    serde_json::from_str::<serde_json::Value>(text).ok()
}

/// `serde_json::Value::get` with a string key. The contract only names the
/// member that is handed out.
#[verifier::external_body]
fn member_of<'a>(value: &'a serde_json::Value, key: &str) -> (member: Option<
    &'a serde_json::Value,
>)
    ensures
        match member {
            Some(found) => json_member(*value, key@) == Some(*found),
            None => json_member(*value, key@) is None,
        },
{
    value.get(key)
}

/// `serde_json::Value::as_str`. The contract only names the text that is
/// handed out.
#[verifier::external_body]
fn text_of<'a>(value: &'a serde_json::Value) -> (text: Option<&'a str>)
    ensures
        match text {
            Some(found) => json_text(*value) == Some(found@),
            None => json_text(*value) is None,
        },
{
    value.as_str()
}

/// `serde_json::to_string` on a string slice, its error dropped. The contract
/// only names the literal that is written.
#[verifier::external_body]
fn quote_text(text: &str) -> (quoted: Option<String>)
    ensures
        match quoted {
            Some(literal) => json_quoted(text@) == Some(literal@),
            None => json_quoted(text@) is None,
        },
{
    serde_json::to_string(text).ok()
}

/// The string that the JSON document `text` holds under `key` at its top
/// level: `None` unless the text is JSON, the document is an object, the
/// object has that member, and the member is a string.
pub open spec fn string_member(text: Seq<char>, key: Seq<char>) -> Option<Seq<char>> {
    match json_parsed(text) {
        Some(value) => match json_member(value, key) {
            Some(member) => json_text(member),
            None => None,
        },
        None => None,
    }
}

/// Reads the string member `key` of the JSON object in `text`.
pub fn read_string_member(text: &str, key: &str) -> (found: Result<String, Error>)
    ensures
        match found {
            Ok(member) => string_member(text@, key@) == Some(member@),
            Err(error) => error == Error::InvalidJsonEventData && string_member(text@, key@)
                is None,
        },
{
    match parse_value(text) {
        None => Err(Error::InvalidJsonEventData),
        Some(value) => match member_of(&value, key) {
            None => Err(Error::InvalidJsonEventData),
            Some(member) => match text_of(member) {
                None => Err(Error::InvalidJsonEventData),
                Some(found) => Ok(String::from_str(found)),
            },
        },
    }
}

/// Writes `text` as a JSON string literal.
pub fn quote(text: &str) -> (quoted: Result<String, Error>)
    ensures
        match quoted {
            Ok(literal) => json_quoted(text@) == Some(literal@),
            Err(error) => error == Error::Json && json_quoted(text@) is None,
        },
{
    match quote_text(text) {
        Some(literal) => Ok(literal),
        None => Err(Error::Json),
    }
}

} // verus!
