//! The test route, which echoes its body.
use crate::greeting::prefixed_text;
use vstd::prelude::*;

verus! {

/// The body of a test request.
#[derive(Debug, Clone, PartialEq, Eq)]
pub struct Test {
    pub test: String,
}

/// The answer of `/api/test`: `test:{test}`.
pub fn test_put(test: Test) -> (text: String)
    ensures
        text@ == "test:"@ + test.test@,
{
    prefixed_text("test:", test.test.as_str())
}

} // verus!
