//! The root page of the poem server.
use vstd::prelude::*;

verus! {

/// The root page.
pub fn index() -> (hello: String)
    ensures
        hello@ == "hello world 1!"@,
{
    String::from_str("hello world 1!")
}

} // verus!
