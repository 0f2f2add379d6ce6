//! The root page, which counts the visits of a session.
use crate::text::{decimal, push_decimal};
use vstd::prelude::*;

verus! {

/// The session entry that holds the visit counter.
pub const SESSION_INDEX_COUNTER: &'static str = "index_counter";

/// The greeting that shows a visit count: `hello world! {count}`.
pub open spec fn counter_greeting(count: nat) -> Seq<char> {
    "hello world! "@ + decimal(count)
}

/// The counter after a visit to a session whose counter held `previous`.
pub open spec fn next_visit_count(previous: Option<usize>) -> int {
    match previous {
        Some(c) => c + 1,
        None => 1,
    }
}

/// The counter of a fresh session after `n` visits, each building on the last.
pub open spec fn count_after_visits(n: nat) -> int
    decreases n,
{
    if n == 0 {
        0
    } else if n == 1 {
        next_visit_count(None)
    } else {
        next_visit_count(Some(count_after_visits((n - 1) as nat) as usize))
    }
}

/// The counter counts the visits: after `n` visits to a fresh session it holds `n`, as long
/// as every count fits in a `usize`.
pub proof fn lemma_counter_counts_visits(n: nat)
    requires
        n <= usize::MAX,
    ensures
        count_after_visits(n) == n,
    decreases n,
{
    if n > 1 {
        lemma_counter_counts_visits((n - 1) as nat);
    }
}

/// The root page for a session whose counter held `previous` (absent as `None`): the new
/// counter, one more than before (or 1 at the first visit), and the greeting that shows it.
pub fn index(previous: Option<usize>) -> (r: (usize, String))
    requires
        previous matches Some(c) ==> c < usize::MAX,
    ensures
        r.0 == next_visit_count(previous),
        r.1@ == counter_greeting(r.0 as nat),
{
    let counter: usize = match previous {
        Some(c) => c + 1,
        None => 1,
    };
    let mut hello = String::from_str("hello world! ");
    push_decimal(&mut hello, counter as u64);
    (counter, hello)
}

/// The second page: a fixed greeting.
pub fn index2() -> (hello: String)
    ensures
        hello@ == "hello world!"@,
{
    String::from_str("hello world!")
}

} // verus!
