//! The login exchange: the password check, a fresh session identifier, the look-up that
//! rules out a clash, and the store of the new session. The storage calls are made by the
//! caller; these functions decide what comes next from what they returned. A storage call
//! that fails ends the login with an internal server error that carries its text.
use crate::http::{HttpError, INTERNAL_SERVER_ERROR};
use crate::json::{json_object_text, json_object_with_string};
use crate::session_id::{generate_session_id, is_session_id};
use vstd::prelude::*;

verus! {

/// The password that the login accepts.
pub open spec fn accepted_password() -> Seq<char> {
    "password"@
}

/// How long a session made by a login lasts when it is stored with an expiry: one year, in seconds.
pub const LOGIN_SESSION_SECONDS: i64 = 60 * 60 * 24 * 365;

/// The answer to a login request.
#[derive(Debug, Clone, PartialEq, Eq)]
pub enum AuthenticationResult {
    /// The login succeeded; the new session's identifier.
    Granted(String),
    /// The generated identifier already names a session.
    Conflict,
    /// The password was refused.
    Forbidden,
}

/// The abstract value of an [`AuthenticationResult`].
pub enum AuthenticationView {
    Granted(Seq<char>),
    Conflict,
    Forbidden,
}

impl View for AuthenticationResult {
    type V = AuthenticationView;

    open spec fn view(&self) -> AuthenticationView {
        match self {
            AuthenticationResult::Granted(id) => AuthenticationView::Granted(id@),
            AuthenticationResult::Conflict => AuthenticationView::Conflict,
            AuthenticationResult::Forbidden => AuthenticationView::Forbidden,
        }
    }
}

impl AuthenticationResult {
    /// The HTTP status that answers carry: 200 for a granted login, 409 for a clash,
    /// 401 for a refused password.
    pub fn status(&self) -> (code: u16)
        ensures
            code == match self@ {
                AuthenticationView::Granted(_) => 200u16,
                AuthenticationView::Conflict => 409u16,
                AuthenticationView::Forbidden => 401u16,
            },
    {
        match self {
            AuthenticationResult::Granted(_) => 200,
            AuthenticationResult::Conflict => 409,
            AuthenticationResult::Forbidden => 401,
        }
    }
}

/// A login whose password was accepted and whose new identifier must be looked up first.
#[derive(Debug, Clone, PartialEq, Eq)]
pub struct LoginLookup {
    /// The freshly generated session identifier.
    pub session_id: String,
    /// The user who logs in.
    pub user_name: String,
}

/// A login whose identifier is free: the session must now be stored.
#[derive(Debug, Clone, PartialEq, Eq)]
pub struct LoginStore {
    /// The identifier under which the session is stored.
    pub session_id: String,
    /// The user name that the session records.
    pub user_name: String,
}

/// What a login does next.
#[derive(Debug, Clone, PartialEq, Eq)]
pub enum LoginStep {
    /// Answer the request with this result; the login is over.
    Reply(AuthenticationResult),
    /// Answer the request with this error; the login is over.
    Failed(HttpError),
    /// Look up whether a session is stored under the identifier.
    Lookup(LoginLookup),
    /// Store a session under the identifier, recording the user name.
    Store(LoginStore),
}

/// The abstract value of a [`LoginStep`]: identifiers, names and error texts as character
/// sequences, an error as its status and text.
pub enum LoginStepView {
    Reply(AuthenticationView),
    Failed(u16, Seq<char>),
    Lookup { session_id: Seq<char>, user_name: Seq<char> },
    Store { session_id: Seq<char>, user_name: Seq<char> },
}

impl View for LoginStep {
    type V = LoginStepView;

    open spec fn view(&self) -> LoginStepView {
        match self {
            LoginStep::Reply(r) => LoginStepView::Reply(r@),
            LoginStep::Failed(e) => LoginStepView::Failed(e.status, e.message@),
            LoginStep::Lookup(l) => LoginStepView::Lookup {
                session_id: l.session_id@,
                user_name: l.user_name@,
            },
            LoginStep::Store(s) => LoginStepView::Store {
                session_id: s.session_id@,
                user_name: s.user_name@,
            },
        }
    }
}

/// The outcome of a storage call as the caller reports it: its value, or its error's text.
pub open spec fn outcome_view<T>(r: Result<T, String>) -> Result<T, Seq<char>> {
    match r {
        Ok(v) => Ok(v),
        Err(e) => Err(e@),
    }
}

/// The first step of a login, given the identifier that it generates.
pub open spec fn login_first_step(
    password: Seq<char>,
    user_name: Seq<char>,
    fresh_id: Seq<char>,
) -> LoginStepView {
    if password == accepted_password() {
        LoginStepView::Lookup { session_id: fresh_id, user_name }
    } else {
        LoginStepView::Reply(AuthenticationView::Forbidden)
    }
}

/// The step after the look-up of `session_id`, given what it returned: whether a session
/// was found there, or the text of its error. A look-up that finds nothing shows that the
/// fresh identifier is free, so the login goes on to store its session; it is not refused.
/// Only a wrong password is answered with `Forbidden`.
pub open spec fn login_after_lookup(
    session_id: Seq<char>,
    user_name: Seq<char>,
    looked_up: Result<bool, Seq<char>>,
) -> LoginStepView {
    match looked_up {
        Err(e) => LoginStepView::Failed(INTERNAL_SERVER_ERROR, e),
        Ok(true) => LoginStepView::Reply(AuthenticationView::Conflict),
        Ok(false) => LoginStepView::Store { session_id, user_name },
    }
}

/// The step after the store of the session under `session_id`, given what it returned.
pub open spec fn login_after_store(session_id: Seq<char>, stored: Result<(), Seq<char>>) -> LoginStepView {
    match stored {
        Err(e) => LoginStepView::Failed(INTERNAL_SERVER_ERROR, e),
        Ok(()) => LoginStepView::Reply(AuthenticationView::Granted(session_id)),
    }
}

/// The whole exchange, given the generated identifier and what the look-up and the store
/// return: the session whose store was asked for (its identifier and user name), if any,
/// and the step that ends the login (an answer or an error).
pub open spec fn login_exchange(
    password: Seq<char>,
    user_name: Seq<char>,
    fresh_id: Seq<char>,
    looked_up: Result<bool, Seq<char>>,
    stored: Result<(), Seq<char>>,
) -> (Option<(Seq<char>, Seq<char>)>, LoginStepView) {
    match login_first_step(password, user_name, fresh_id) {
        LoginStepView::Lookup { session_id, user_name } => match login_after_lookup(
            session_id,
            user_name,
            looked_up,
        ) {
            LoginStepView::Store { session_id, user_name } => (
                Some((session_id, user_name)),
                login_after_store(session_id, stored),
            ),
            other => (None, other),
        },
        other => (None, other),
    }
}

/// Starts a login: refuses any password but the accepted one, and otherwise asks for a
/// look-up of a freshly generated session identifier.
pub fn login_start(user_name: String, password: &str) -> (step: LoginStep)
    ensures
        password@ != accepted_password() ==> step@ == LoginStepView::Reply(
            AuthenticationView::Forbidden,
        ),
        password@ == accepted_password() ==> (step matches LoginStep::Lookup(l) && is_session_id(
            l.session_id@,
        ) && step@ == login_first_step(password@, user_name@, l.session_id@)),
{
    proof { reveal_strlit("password"); }
    let accepted = String::from_str("password");
    let given = String::from_str(password);
    if given == accepted {
        let session_id = generate_session_id();
        LoginStep::Lookup(LoginLookup { session_id, user_name })
    } else {
        LoginStep::Reply(AuthenticationResult::Forbidden)
    }
}

impl LoginLookup {
    /// The step after the look-up: a failed look-up ends the login with an internal server
    /// error carrying its text, a clash ends it with a conflict, a free identifier is stored.
    pub fn after_lookup(self, looked_up: Result<bool, String>) -> (step: LoginStep)
        ensures
            step@ == login_after_lookup(self.session_id@, self.user_name@, outcome_view(looked_up)),
    {
        match looked_up {
            Err(e) => LoginStep::Failed(HttpError::internal(e)),
            Ok(true) => LoginStep::Reply(AuthenticationResult::Conflict),
            Ok(false) => LoginStep::Store(
                LoginStore { session_id: self.session_id, user_name: self.user_name },
            ),
        }
    }
}

/// The name of the session entry that records who logged in.
pub open spec fn user_name_key() -> Seq<char> {
    "user_name"@
}

impl LoginStore {
    /// The key of the session entry that records the user name.
    pub fn user_name_key(&self) -> (key: String)
        ensures
            key@ == user_name_key(),
    {
        proof { reveal_strlit("user_name"); }
        String::from_str("user_name")
    }

    /// The stored form of the session where it is kept as JSON text: an object with the
    /// one entry `"user_name"` holding the user name.
    pub fn session_json(&self) -> (text: String)
        ensures
            text@ == json_object_text(user_name_key(), self.user_name@),
    {
        proof { reveal_strlit("user_name"); }
        json_object_with_string("user_name", self.user_name.as_str())
    }

    /// The step after the store: a failed store ends the login with an internal server
    /// error carrying its text; otherwise the login is granted with its identifier.
    pub fn after_store(self, stored: Result<(), String>) -> (step: LoginStep)
        ensures
            step@ == login_after_store(self.session_id@, outcome_view(stored)),
    {
        match stored {
            Err(e) => LoginStep::Failed(HttpError::internal(e)),
            Ok(()) => LoginStep::Reply(AuthenticationResult::Granted(self.session_id)),
        }
    }
}

/// A login is granted exactly when the password is the accepted one, the look-up found no
/// session under the generated identifier and the store succeeded; it then hands out that
/// identifier, whose session, holding the user's name, was stored. A store is asked for
/// only after a look-up that found nothing: a refused password, a clash or a failed
/// look-up store nothing. A failed look-up or store ends the login with an internal server
/// error that carries its text.
pub proof fn lemma_login_grants_only_stored_sessions(
    password: Seq<char>,
    user_name: Seq<char>,
    fresh_id: Seq<char>,
    looked_up: Result<bool, Seq<char>>,
    stored: Result<(), Seq<char>>,
)
    ensures
        ({
            let (store, end) = login_exchange(password, user_name, fresh_id, looked_up, stored);
            let ok = password == accepted_password();
            &&& (end is Reply && end->Reply_0 is Granted) <==> (ok && looked_up == Ok::<bool, Seq<char>>(false)
                && stored is Ok)
            &&& (end is Reply && end->Reply_0 is Granted) ==> end == LoginStepView::Reply(
                AuthenticationView::Granted(fresh_id),
            )
            &&& (store is Some) <==> (ok && looked_up == Ok::<bool, Seq<char>>(false))
            &&& store is Some ==> store == Some((fresh_id, user_name))
            &&& (end == LoginStepView::Reply(AuthenticationView::Forbidden)) <==> !ok
            &&& (end == LoginStepView::Reply(AuthenticationView::Conflict)) <==> (ok
                && looked_up == Ok::<bool, Seq<char>>(true))
            &&& (ok && looked_up is Err) ==> end == LoginStepView::Failed(
                INTERNAL_SERVER_ERROR,
                looked_up->Err_0,
            )
            &&& (ok && looked_up == Ok::<bool, Seq<char>>(false) && stored is Err) ==> end
                == LoginStepView::Failed(INTERNAL_SERVER_ERROR, stored->Err_0)
            &&& end is Reply || end is Failed
        }),
{
}

} // verus!
