//! The endpoints through which the frontend reads and writes the server's session store.
use vstd::prelude::*;

verus! {

/// The session API.
#[derive(Debug, Clone, Copy, PartialEq, Eq)]
pub struct SessionApi;

/// The answer of `/load_session`: whether the session exists, and its entries.
#[derive(Debug, Clone, PartialEq, Eq)]
pub struct LoadSessionValue<E> {
    pub exists: bool,
    pub entries: Option<E>,
}

/// The body of `/update_session`: the entries, and an expiry in seconds.
#[derive(Debug, Clone, PartialEq, Eq)]
pub struct UpdateSessionValue<E> {
    pub entries: E,
    pub expires: Option<u64>,
}

impl SessionApi {
    /// The answer of `/load_session` for what the store returned: the session exists
    /// exactly when entries were found, and the entries are handed back as they are.
    pub fn load_session<E>(&self, entries: Option<E>) -> (v: LoadSessionValue<E>)
        ensures
            v.exists == entries is Some,
            v.entries == entries,
    {
        let exists = entries.is_some();
        LoadSessionValue { exists, entries }
    }
}

} // verus!
