//! The hello-world endpoints.
use crate::greeting::{greeting, greeting_text, opt_view, prefixed_text};
use vstd::prelude::*;

verus! {

/// The hello-world API.
#[derive(Debug, Clone, Copy, PartialEq, Eq)]
pub struct Api;

/// The body of a test request.
#[derive(Debug, Clone, PartialEq, Eq)]
pub struct Test {
    pub test: String,
}

impl Api {
    /// The answer of `/hello`.
    pub fn index(&self) -> (text: String)
        ensures
            text@ == "Hello, World!"@,
    {
        String::from_str("Hello, World!")
    }

    /// The answer of `/greet`: `hello, {name}!`, or `hello!` without a name.
    pub fn greet(&self, name: Option<String>) -> (text: String)
        ensures
            text@ == greeting("hello"@, opt_view(name)),
    {
        greeting_text("hello", name)
    }

    /// The answer of `/test`: `test:{test}`.
    pub fn test(&self, test: Test) -> (text: String)
        ensures
            text@ == "test:"@ + test.test@,
    {
        prefixed_text("test:", test.test.as_str())
    }
}

} // verus!
