//! Looking up the session that an API key names.
use vstd::prelude::*;

verus! {

/// What the key check makes of a request: `None` where no server state is attached to the
/// request (no look-up is made), otherwise the store's answer for the key. It gives the
/// session's entries where the store holds a session under the key, and no session where
/// the state is missing, the store holds none, or the look-up failed.
pub fn session_for_api_key<E>(loaded: Option<Result<Option<E>, String>>) -> (r: Option<E>)
    ensures
        match loaded {
            Some(Ok(Some(entries))) => r == Some(entries),
            _ => r is None,
        },
{
    match loaded {
        Some(Ok(Some(entries))) => Some(entries),
        _ => None,
    }
}

/// The key check that admits every key whose look-up succeeded: `Some(Some(entries))` for
/// a stored session, `Some(None)` for a fresh default session where none is stored, and
/// `None` where no server state is attached to the request or the look-up failed.
pub fn session_or_default_for_api_key<E>(loaded: Option<Result<Option<E>, String>>) -> (r: Option<
    Option<E>,
>)
    ensures
        match loaded {
            Some(Ok(found)) => r == Some(found),
            _ => r is None,
        },
{
    match loaded {
        Some(Ok(found)) => Some(found),
        _ => None,
    }
}

} // verus!
