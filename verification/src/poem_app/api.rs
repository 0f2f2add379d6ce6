//! The hello-world API of the poem server.
use crate::greeting::{greeting, greeting_text, opt_view};
use vstd::prelude::*;

verus! {

/// The hello-world API.
#[derive(Debug, Clone, Copy, PartialEq, Eq)]
pub struct Api;

impl Api {
    /// The answer of `/hello`: `world, {name}!`, or `world!` without a name.
    pub fn index(&self, name: Option<String>) -> (text: String)
        ensures
            text@ == greeting("world"@, opt_view(name)),
    {
        greeting_text("world", name)
    }

    /// The answer of `/world`: `hello, {name}!`, or `hello!` without a name.
    pub fn world(&self, name: Option<String>) -> (text: String)
        ensures
            text@ == greeting("hello"@, opt_view(name)),
    {
        greeting_text("hello", name)
    }
}

} // verus!
