//! The two root pages.
use vstd::prelude::*;

verus! {

/// The first page.
pub fn index() -> (hello: String)
    ensures
        hello@ == "hello world 1!"@,
{
    String::from_str("hello world 1!")
}

/// The second page.
pub fn index2() -> (hello: String)
    ensures
        hello@ == "hello world 2!"@,
{
    String::from_str("hello world 2!")
}

} // verus!
