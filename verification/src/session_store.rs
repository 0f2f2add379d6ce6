//! Requests to a session store, and a model of the store to state what a later look-up
//! gives back.
use vstd::prelude::*;

verus! {

/// A request to store a session: its key, its stored text and its expiry in seconds.
#[derive(Debug, Clone, PartialEq, Eq)]
pub struct StoreRequest {
    /// The key under which the session is stored.
    pub id: String,
    /// The stored text of the session.
    pub session: String,
    /// The expiry given with it.
    pub expires: i64,
}

/// A store that keeps what is last written under each key: what it holds.
pub type StoreContents = Map<Seq<char>, Seq<char>>;

/// What a look-up of `key` returns from a store holding `contents`.
pub open spec fn lookup(contents: StoreContents, key: Seq<char>) -> Option<Seq<char>> {
    if contents.dom().contains(key) {
        Some(contents[key])
    } else {
        None
    }
}

/// What such a store holds once `request` was stored.
pub open spec fn after_store(contents: StoreContents, request: StoreRequest) -> StoreContents {
    contents.insert(request.id@, request.session@)
}

} // verus!
