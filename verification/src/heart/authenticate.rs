//! The login route: a session stored as JSON text for a year.
use crate::json::json_object_text;
use crate::login::{
    accepted_password, login_first_step, login_start, user_name_key, AuthenticationView, LoginStep,
    LoginStepView, LoginStore, LOGIN_SESSION_SECONDS,
};
use crate::session_store::StoreRequest;
use crate::session_id::is_session_id;
use vstd::prelude::*;

verus! {

/// The schema of the authentication API.
#[derive(Debug, Clone, Copy, PartialEq, Eq)]
pub struct AuthenticateApi;

/// The query of a login.
#[derive(Debug, Clone, PartialEq, Eq)]
pub struct LoginParams {
    pub user_name: String,
    pub password: String,
    pub device_info: String,
}

/// Starts the login that `params` ask for; the device information is not used. A wrong
/// password is refused at once; otherwise a fresh session identifier is to be looked up.
pub fn login(params: LoginParams) -> (step: LoginStep)
    ensures
        params.password@ != accepted_password() ==> step@ == LoginStepView::Reply(
            AuthenticationView::Forbidden,
        ),
        params.password@ == accepted_password() ==> (step matches LoginStep::Lookup(l)
            && is_session_id(l.session_id@) && step@ == login_first_step(
            params.password@,
            params.user_name@,
            l.session_id@,
        )),
{
    login_start(params.user_name, params.password.as_str())
}

/// The store that a login asks for once its identifier is free: the session under that
/// identifier, as the JSON object `{"user_name": ..}`, lasting one year.
pub fn store_request(store: &LoginStore) -> (r: StoreRequest)
    ensures
        r.id@ == store.session_id@,
        r.session@ == json_object_text(user_name_key(), store.user_name@),
        r.expires == LOGIN_SESSION_SECONDS,
{
    StoreRequest {
        id: store.session_id.clone(),
        session: store.session_json(),
        expires: LOGIN_SESSION_SECONDS,
    }
}

} // verus!
