//! The greeting routes.
use crate::greeting::{greeting, greeting_text, opt_view};
use vstd::prelude::*;

verus! {

/// The answer of `/api/hello`.
pub fn hello() -> (text: String)
    ensures
        text@ == "Hello, World!"@,
{
    String::from_str("Hello, World!")
}

/// The value of a query parameter that is not given.
pub fn default_none<T>() -> (r: Option<T>)
    ensures
        r is None,
{
    None
}

/// The query of `/api/greet`.
#[derive(Debug, Clone, PartialEq, Eq)]
pub struct GreetParams {
    /// Who to greet; absent when the query does not name anyone.
    pub name: Option<String>,
}

/// The answer of `/api/greet`: `hello, {name}!`, or `hello!` without a name.
pub fn greet(params: GreetParams) -> (text: String)
    ensures
        text@ == greeting("hello"@, opt_view(params.name)),
{
    greeting_text("hello", params.name)
}

} // verus!
