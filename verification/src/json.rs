//! JSON text of a one-entry object, as `serde_json` renders it.
use vstd::prelude::*;

verus! {

/// The lowercase hexadecimal digit of `d` (below 16).
pub open spec fn hex_digit(d: int) -> char {
    seq!['0', '1', '2', '3', '4', '5', '6', '7', '8', '9', 'a', 'b', 'c', 'd', 'e', 'f'][d]
}

/// How `serde_json` writes one character inside a string: a quote and a backslash get a
/// backslash in front, the controls with a short escape get it (`\b \t \n \f \r`), the other
/// characters below U+0020 become `\u00XX` with lowercase hex, and all else stays as it is.
pub open spec fn json_escaped_char(c: char) -> Seq<char> {
    let n = c as int;
    if c == '"' {
        seq!['\\', '"']
    } else if c == '\\' {
        seq!['\\', '\\']
    } else if n == 8 {
        seq!['\\', 'b']
    } else if n == 9 {
        seq!['\\', 't']
    } else if n == 10 {
        seq!['\\', 'n']
    } else if n == 12 {
        seq!['\\', 'f']
    } else if n == 13 {
        seq!['\\', 'r']
    } else if n < 32 {
        seq!['\\', 'u', '0', '0', hex_digit(n / 16), hex_digit(n % 16)]
    } else {
        seq![c]
    }
}

/// The escaped contents of a JSON string holding `s`.
pub open spec fn json_escaped(s: Seq<char>) -> Seq<char>
    decreases s.len(),
{
    if s.len() == 0 {
        Seq::empty()
    } else {
        json_escaped(s.drop_last()) + json_escaped_char(s.last())
    }
}

/// The JSON string literal for `s`, quotes included.
pub open spec fn json_string(s: Seq<char>) -> Seq<char> {
    seq!['"'] + json_escaped(s) + seq!['"']
}

/// The compact JSON text of an object with the single entry `key: value`, both strings.
pub open spec fn json_object_text(key: Seq<char>, value: Seq<char>) -> Seq<char> {
    seq!['{'] + json_string(key) + seq![':'] + json_string(value) + seq!['}']
}

/// Renders, with `serde_json::Value::Object(..).to_string()`, a map that holds the one entry
/// `key: serde_json::Value::String(value)`. Claims that the text is the compact rendering
/// that `serde_json`'s serializer writes: braces, the two strings quoted and escaped as its
/// escape table says, and a colon between them.
#[verifier::external_body]
pub(crate) fn json_object_with_string(key: &str, value: &str) -> (text: String)
    ensures
        text@ == json_object_text(key@, value@),
{
    let mut map = serde_json::Map::new();
    map.insert(key.to_string(), serde_json::Value::String(value.to_string()));
    serde_json::Value::Object(map).to_string()
}

} // verus!
