use vstd::prelude::*;

verus! {

#[verifier::external_type_specification]
#[verifier::external_body]
pub struct ExValue(serde_json::Value);

#[verifier::external_type_specification]
#[verifier::external_body]
pub struct ExError(serde_json::Error);

/// What a JSON value holds under one key, as far as a record reads it.
/// A value that is not an object holds nothing under any key.
#[derive(Clone, Debug, PartialEq, Eq)]
pub enum Member {
    Absent,
    Null,
    Text(String),
    Other,
}

/// The value that serde_json reads from `bytes`, or `None` where they are not
/// one JSON document.
pub uninterp spec fn json_document(bytes: Seq<u8>) -> Option<serde_json::Value>;

/// What `value` holds under `key`.
pub uninterp spec fn json_member(value: serde_json::Value, key: Seq<char>) -> Member;

/// The lower-case hexadecimal digit of `n`, for `n < 16`.
pub open spec fn hex_digit(n: u32) -> char {
    seq!['0', '1', '2', '3', '4', '5', '6', '7', '8', '9', 'a', 'b', 'c', 'd', 'e', 'f'][n as int]
}

/// How one character is written inside a JSON string: quote and backslash
/// get a backslash, the five control characters with a short escape get it,
/// the other control characters below 0x20 become `\u00xx`, and every other
/// character stands as it is.
pub open spec fn escaped_char(c: char) -> Seq<char> {
    if c == '"' {
        seq!['\\', '"']
    } else if c == '\\' {
        seq!['\\', '\\']
    } else if c == '\x08' {
        seq!['\\', 'b']
    } else if c == '\t' {
        seq!['\\', 't']
    } else if c == '\n' {
        seq!['\\', 'n']
    } else if c == '\x0c' {
        seq!['\\', 'f']
    } else if c == '\r' {
        seq!['\\', 'r']
    } else if (c as u32) < 0x20 {
        seq!['\\', 'u', '0', '0', hex_digit((c as u32) / 16), hex_digit((c as u32) % 16)]
    } else {
        seq![c]
    }
}

/// The characters of `s`, each written as `escaped_char` writes it.
pub open spec fn escaped(s: Seq<char>) -> Seq<char>
    decreases s.len(),
{
    if s.len() == 0 {
        Seq::empty()
    } else {
        escaped(s.drop_last()) + escaped_char(s.last())
    }
}

/// The JSON string literal for `s`: quoted, with serde_json's escapes.
pub open spec fn json_string_literal(s: Seq<char>) -> Seq<char> {
    seq!['"'] + escaped(s) + seq!['"']
}

/// Relies on serde_json::from_slice into a `serde_json::Value`: it reads one
/// JSON document (whitespace around it allowed) and fails on anything else.
/// The value read depends on the bytes alone.
#[verifier::external_body]
pub(crate) fn parse_document(bytes: &[u8]) -> (r: Result<serde_json::Value, serde_json::Error>)
    ensures
        r is Ok ==> json_document(bytes@) == Some(r->Ok_0),
        r is Err ==> json_document(bytes@) is None,
{
    serde_json::from_slice(bytes)
}

/// Relies on serde_json::Value::get with a string key: the object's entry
/// under that key, and nothing for a value that is not an object. The entry
/// is told apart by its variant.
#[verifier::external_body]
pub(crate) fn member(value: &serde_json::Value, key: &str) -> (r: Member)
    ensures
        r == json_member(*value, key@),
{
    match value.get(key) {
        None => Member::Absent,
        Some(serde_json::Value::Null) => Member::Null,
        Some(serde_json::Value::String(s)) => Member::Text(s.clone()),
        Some(_) => Member::Other,
    }
}

/// Relies on serde_json::to_string on a `str`: the string written as a JSON
/// string literal through serde_json's escape table. Writing a `str` into
/// the `Vec<u8>` that `to_string` uses cannot fail, so the result is `Ok`.
#[verifier::external_body]
pub(crate) fn quote(s: &str) -> (r: Result<String, serde_json::Error>)
    ensures
        r is Ok,
        r->Ok_0@ == json_string_literal(s@),
{
    serde_json::to_string(s)
}

} // verus!
