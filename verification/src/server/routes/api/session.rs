//! The routes through which the frontend keeps its sessions in the server's store.
use crate::clock::{timestamp_in_days, SECONDS_PER_DAY};
use crate::http::{HttpError, INTERNAL_SERVER_ERROR, NOT_FOUND};
use crate::session_store::{after_store, lookup, StoreContents, StoreRequest};
use vstd::prelude::*;

verus! {

/// An answer that may be empty.
#[derive(Debug, Clone, PartialEq, Eq)]
pub enum OptionalResponse<T> {
    Present(T),
    Absent,
}

/// The body of `/api/update_session`: the entries, and an expiry in seconds since the Unix
/// epoch, where 0 asks for the default of one year from now.
#[derive(Debug, Clone, PartialEq, Eq)]
pub struct UpdateSessionValue<E> {
    pub entries: E,
    pub expires: u64,
}

/// The query of `/api/load_session`.
#[derive(Debug, Clone, PartialEq, Eq)]
pub struct LoadSessionParams {
    pub session_id: String,
}

/// The query of `/api/update_session`.
#[derive(Debug, Clone, PartialEq, Eq)]
pub struct UpdateSessionParams {
    pub session_id: String,
}

/// The query of `/api/remove_session`.
#[derive(Debug, Clone, PartialEq, Eq)]
pub struct RemoveSessionParams {
    pub session_id: String,
}

/// The key under which the session that the frontend keeps for `session_id` is stored.
pub open spec fn frontend_key(session_id: Seq<char>) -> Seq<char> {
    "fe_"@ + session_id
}

/// The key under which the session that the frontend keeps for `session_id` is stored:
/// the identifier behind the prefix `fe_`.
pub fn frontend_session_id(session_id: String) -> (key: String)
    ensures
        key@ == frontend_key(session_id@),
{
    String::from_str("fe_").concat(session_id.as_str())
}

/// Different session identifiers are kept under different keys.
pub proof fn lemma_frontend_keys_distinct(a: Seq<char>, b: Seq<char>)
    requires
        a != b,
    ensures
        frontend_key(a) != frontend_key(b),
{
    reveal_strlit("fe_");
    if frontend_key(a) == frontend_key(b) {
        assert(a =~= frontend_key(a).subrange(3, frontend_key(a).len() as int));
        assert(b =~= frontend_key(b).subrange(3, frontend_key(b).len() as int));
    }
}

/// The answer to a read of a session: its stored JSON text, served as `application/json`.
#[derive(Debug, Clone, PartialEq, Eq)]
pub struct JsonReply {
    /// The `Content-Type` of the answer.
    pub content_type: String,
    /// The answer's body.
    pub body: String,
}

/// The answer of `/api/load_session` for what the look-up of its key returned: the stored
/// text (as JSON), "not found" when nothing is stored, and an internal server error with
/// the look-up's error text when it failed. Texts as sequences, an error as status and text.
pub open spec fn load_answer(loaded: Result<Option<Seq<char>>, Seq<char>>) -> Result<
    Seq<char>,
    (u16, Seq<char>),
> {
    match loaded {
        Ok(Some(text)) => Ok(text),
        Ok(None) => Err((NOT_FOUND, "Session not found"@)),
        Err(e) => Err((INTERNAL_SERVER_ERROR, e)),
    }
}

/// The view of a look-up's outcome.
pub open spec fn loaded_view(loaded: Result<Option<String>, String>) -> Result<
    Option<Seq<char>>,
    Seq<char>,
> {
    match loaded {
        Ok(Some(t)) => Ok(Some(t@)),
        Ok(None) => Ok(None),
        Err(e) => Err(e@),
    }
}

/// The view of an answer: the JSON body, or the error's status and text.
pub open spec fn reply_view(r: Result<JsonReply, HttpError>) -> Result<Seq<char>, (u16, Seq<char>)> {
    match r {
        Ok(j) => Ok(j.body@),
        Err(e) => Err((e.status, e.message@)),
    }
}

/// The answer of `/api/load_session` for what the look-up of the session's key returned.
pub fn load_session_reply(loaded: Result<Option<String>, String>) -> (r: Result<JsonReply, HttpError>)
    ensures
        reply_view(r) == load_answer(loaded_view(loaded)),
        r matches Ok(j) ==> j.content_type@ == "application/json"@,
{
    match loaded {
        Ok(Some(text)) => Ok(JsonReply { content_type: String::from_str("application/json"), body: text }),
        Ok(None) => Err(HttpError { status: NOT_FOUND, message: String::from_str("Session not found") }),
        Err(e) => Err(HttpError::internal(e)),
    }
}

/// The days for which a session lasts when the frontend gives no expiry.
pub const DEFAULT_EXPIRY_DAYS: i64 = 365;

/// The expiry given to a session for which the frontend gives none: the time one year from
/// now, in seconds since the Unix epoch.
pub fn get_default_expires_value() -> (t: u64)
    ensures
        DEFAULT_EXPIRY_DAYS * SECONDS_PER_DAY <= t <= i64::MAX,
{
    let t = timestamp_in_days(DEFAULT_EXPIRY_DAYS);
    t as u64
}

/// The expiry stored with a session: the one the frontend gave, or `default` where it gave
/// 0, read as a signed number of seconds (a value past `i64::MAX` wraps around, as `as i64`
/// does).
pub fn stored_expiry(expires: u64, default: u64) -> (t: i64)
    ensures
        t == (if expires == 0 {
            default
        } else {
            expires
        }) as i64,
{
    let chosen = if expires == 0 {
        default
    } else {
        expires
    };
    chosen as i64
}

/// The expiry stored with a session that the frontend updates: the one it gave, or one
/// year from now where it gave 0.
pub fn update_session_expiry(expires: u64) -> (t: i64)
    ensures
        expires != 0 ==> t == expires as i64,
        expires == 0 ==> t >= DEFAULT_EXPIRY_DAYS * SECONDS_PER_DAY,
{
    if expires == 0 {
        let default = get_default_expires_value();
        stored_expiry(expires, default)
    } else {
        stored_expiry(expires, 0)
    }
}

/// The store that `/api/update_session` asks for: the entries' JSON text (`serialized`, or
/// the text of the error that made serialising fail) under the frontend key of
/// `session_id`, with the expiry the frontend gave (one year from now for 0). Where
/// serialising failed, nothing is stored and the answer is an internal server error
/// with its text.
pub fn update_session(session_id: String, expires: u64, serialized: Result<String, String>) -> (r:
    Result<StoreRequest, HttpError>)
    ensures
        match serialized {
            Ok(text) => r matches Ok(req) && req.id@ == frontend_key(session_id@) && req.session@
                == text@ && (expires != 0 ==> req.expires == expires as i64) && (expires == 0
                ==> req.expires >= DEFAULT_EXPIRY_DAYS * SECONDS_PER_DAY),
            Err(e) => r matches Err(err) && err.status == INTERNAL_SERVER_ERROR && err.message@
                == e@,
        },
{
    match serialized {
        Err(e) => Err(HttpError::internal(e)),
        Ok(text) => {
            let id = frontend_session_id(session_id);
            let expires = update_session_expiry(expires);
            Ok(StoreRequest { id, session: text, expires })
        },
    }
}

/// The answer of `/api/update_session` or `/api/remove_session` for what the store (or the
/// removal) returned: nothing on success, an internal server error with its text on failure.
pub fn write_reply(written: Result<(), String>) -> (r: Result<(), HttpError>)
    ensures
        match written {
            Ok(()) => r is Ok,
            Err(e) => r matches Err(err) && err.status == INTERNAL_SERVER_ERROR && err.message@
                == e@,
        },
{
    match written {
        Ok(()) => Ok(()),
        Err(e) => Err(HttpError::internal(e)),
    }
}

/// Read after write: once a session update stored its request in a store that keeps what
/// is last written under each key, reading that session answers with the stored text.
pub proof fn lemma_load_session_after_update_session(
    contents: StoreContents,
    session_id: Seq<char>,
    request: StoreRequest,
)
    requires
        request.id@ == frontend_key(session_id),
    ensures
        load_answer(Ok(lookup(after_store(contents, request), frontend_key(session_id)))) == Ok::<
            Seq<char>,
            (u16, Seq<char>),
        >(request.session@),
{
}

/// Read after remove: once the session's key was removed from such a store, reading the
/// session answers "not found" (404, `Session not found`); sessions under other
/// identifiers are untouched by the removal.
pub proof fn lemma_load_session_after_remove_session(
    contents: StoreContents,
    session_id: Seq<char>,
    other_id: Seq<char>,
)
    ensures
        load_answer(Ok(lookup(contents.remove(frontend_key(session_id)), frontend_key(session_id))))
            == Err::<Seq<char>, (u16, Seq<char>)>((NOT_FOUND, "Session not found"@)),
        other_id != session_id ==> lookup(
            contents.remove(frontend_key(session_id)),
            frontend_key(other_id),
        ) == lookup(contents, frontend_key(other_id)),
{
    if other_id != session_id {
        lemma_frontend_keys_distinct(session_id, other_id);
    }
}

} // verus!
