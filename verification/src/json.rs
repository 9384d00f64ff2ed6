//! JSON values as the feed carries them, and the two calls into `serde_json`
//! that read JSON text and write a JSON string.

use vstd::prelude::*;

verus! {

/// A JSON value.
#[derive(Debug, PartialEq, Eq)]
pub enum Json {
    Null,
    Bool(bool),
    /// A number. It carries its value where it is a non-negative integer that
    /// fits 64 bits, and nothing otherwise.
    Number(Option<u64>),
    Text(String),
    Array(Vec<Json>),
    /// The members of an object, each key once.
    Object(Vec<(String, Json)>),
}

/// What `serde_json::from_str` makes of a text: the value it denotes, or
/// `None` where the text is not one JSON value. Where an object repeats a
/// key, the last of its values stands.
pub uninterp spec fn parsed(text: Seq<char>) -> Option<Json>;

/// A hexadecimal digit in lower case.
pub open spec fn hex_digit(d: nat) -> char {
    if d == 0 {
        '0'
    } else if d == 1 {
        '1'
    } else if d == 2 {
        '2'
    } else if d == 3 {
        '3'
    } else if d == 4 {
        '4'
    } else if d == 5 {
        '5'
    } else if d == 6 {
        '6'
    } else if d == 7 {
        '7'
    } else if d == 8 {
        '8'
    } else if d == 9 {
        '9'
    } else if d == 10 {
        'a'
    } else if d == 11 {
        'b'
    } else if d == 12 {
        'c'
    } else if d == 13 {
        'd'
    } else if d == 14 {
        'e'
    } else {
        'f'
    }
}

/// How one character stands inside a JSON string literal: the quote and the
/// backslash behind a backslash; backspace, tab, line feed, form feed and
/// carriage return as a backslash and a letter; every other character below
/// the space as `\u00` and two hexadecimal digits; any other character as
/// itself.
pub open spec fn escaped_char(c: char) -> Seq<char> {
    if c == '"' {
        seq!['\\', '"']
    } else if c == '\\' {
        seq!['\\', '\\']
    } else if c == '\u{8}' {
        seq!['\\', 'b']
    } else if c == '\t' {
        seq!['\\', 't']
    } else if c == '\n' {
        seq!['\\', 'n']
    } else if c == '\u{c}' {
        seq!['\\', 'f']
    } else if c == '\r' {
        seq!['\\', 'r']
    } else if (c as u32) < 0x20 {
        seq!['\\', 'u', '0', '0', hex_digit((c as u32 / 16) as nat), hex_digit((c as u32 % 16) as nat)]
    } else {
        seq![c]
    }
}

/// The characters of a text as they stand inside a JSON string literal.
pub open spec fn escaped(text: Seq<char>) -> Seq<char>
    decreases text.len(),
{
    if text.len() == 0 {
        Seq::empty()
    } else {
        escaped(text.drop_last()) + escaped_char(text.last())
    }
}

/// A text as a JSON string literal: its characters, escaped, between two
/// quotes.
pub open spec fn quoted(text: Seq<char>) -> Seq<char> {
    seq!['"'] + escaped(text) + seq!['"']
}

/// `serde_json`'s own tree of a JSON value; only passed on here.
#[verifier::external_type_specification]
#[verifier::external_body]
pub struct ExValue(serde_json::Value);

/// Moves a `serde_json::Value` into a [`Json`], variant by variant. A number
/// is kept through `Number::as_u64`; the members of an object come in the
/// order in which its map hands them out.
#[verifier::external_body]
fn json_of_value(value: serde_json::Value) -> Json {
    match value {
        serde_json::Value::Null => Json::Null,
        serde_json::Value::Bool(b) => Json::Bool(b),
        serde_json::Value::Number(n) => Json::Number(n.as_u64()),
        serde_json::Value::String(s) => Json::Text(s),
        serde_json::Value::Array(items) => Json::Array(items.into_iter().map(json_of_value).collect()),
        serde_json::Value::Object(members) => Json::Object(
            members.into_iter().map(|(k, v)| (k, json_of_value(v))).collect(),
        ),
    }
}

/// Calls `serde_json::from_str` for a `serde_json::Value`. The contract names
/// the outcome, which depends on the text alone; it says nothing of which
/// texts are JSON.
#[verifier::external_body]
fn parse_value(text: &str) -> (r: Option<Json>)
    ensures
        r == parsed(text@),
{
    match serde_json::from_str::<serde_json::Value>(text) {
        Ok(value) => Some(json_of_value(value)),
        Err(_) => None,
    }
}

/// Calls `serde_json::to_string` on a string. Writing a string into memory
/// has no failing path in the serializer, so the call returns `Ok`; the
/// contract spells out the literal that it holds, by the serializer's table
/// of escapes.
#[verifier::external_body]
fn quote_text(text: &str) -> (r: Option<String>)
    ensures
        r.is_some(),
        r.unwrap()@ == quoted(text@),
{
    serde_json::to_string(text).ok()
}

/// Reads a text as one JSON value.
pub fn parse(text: &str) -> (r: Option<Json>)
    ensures
        r == parsed(text@),
{
    parse_value(text)
}

/// Writes a string as a JSON string literal.
pub fn quote(text: &str) -> (r: String)
    ensures
        r@ == quoted(text@),
{
    quote_text(text).unwrap()
}

} // verus!
