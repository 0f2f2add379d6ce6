//! The texts of the greeting endpoints.
use vstd::prelude::*;

verus! {

/// A greeting with `word`: `{word}, {name}!` for a given name, `{word}!` without one.
pub open spec fn greeting(word: Seq<char>, name: Option<Seq<char>>) -> Seq<char> {
    match name {
        Some(n) => word + ", "@ + n + "!"@,
        None => word + "!"@,
    }
}

/// The view of an optional text.
pub open spec fn opt_view(name: Option<String>) -> Option<Seq<char>> {
    match name {
        Some(n) => Some(n@),
        None => None,
    }
}

/// Greets `name`, or no one in particular, with `word`.
pub fn greeting_text(word: &str, name: Option<String>) -> (text: String)
    ensures
        text@ == greeting(word@, opt_view(name)),
{
    match name {
        Some(n) => String::from_str(word).concat(", ").concat(n.as_str()).concat("!"),
        None => String::from_str(word).concat("!"),
    }
}

/// A text behind a fixed prefix, such as `test:{text}`.
pub fn prefixed_text(prefix: &str, text: &str) -> (r: String)
    ensures
        r@ == prefix@ + text@,
{
    String::from_str(prefix).concat(text)
}

} // verus!
