//! The current time, from `chrono`.
use vstd::prelude::*;

verus! {

/// Seconds in a day.
pub const SECONDS_PER_DAY: i64 = 86400;

/// Calls `chrono::Utc::now().timestamp()`: the current time in seconds since the Unix epoch.
/// What it returns depends on the clock. Claims only that it is not negative: chrono reads
/// the clock as a duration since the epoch and panics on a clock set before it.
#[verifier::external_body]
pub(crate) fn now_timestamp() -> (t: i64)
    ensures
        t >= 0,
{
    chrono::Utc::now().timestamp()
}

/// Calls `(chrono::Utc::now() + chrono::Duration::days(days)).timestamp()`: the time `days`
/// days from now, in seconds since the Unix epoch. What it returns depends on the clock.
/// Claims that it is at least the length of those days, since chrono adds them to a time
/// that is not before the epoch, and counts no leap seconds. The bound on `days` keeps
/// `Duration::days` from panicking; the addition would panic only past chrono's last
/// representable year, which is left unsaid.
#[verifier::external_body]
pub(crate) fn timestamp_in_days(days: i64) -> (t: i64)
    requires
        0 <= days <= 36500,
    ensures
        t >= days * SECONDS_PER_DAY,
{
    (chrono::Utc::now() + chrono::Duration::days(days)).timestamp()
}

} // verus!
