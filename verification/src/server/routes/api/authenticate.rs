//! The login route of the poem API.
use crate::login::{accepted_password, login_first_step, login_start, AuthenticationView, LoginStep, LoginStepView};
use crate::session_id::is_session_id;
use vstd::prelude::*;

verus! {

/// The API that logs users in.
#[derive(Debug, Clone, Copy, PartialEq, Eq)]
pub struct AuthenticateApi;

impl AuthenticateApi {
    /// Starts a login for `user_name` with `password`; the device information is not used.
    /// A wrong password is refused at once; otherwise a fresh session identifier is to be
    /// looked up.
    pub fn greet(&self, user_name: String, password: String, device_info: String) -> (step: LoginStep)
        ensures
            password@ != accepted_password() ==> step@ == LoginStepView::Reply(
                AuthenticationView::Forbidden,
            ),
            password@ == accepted_password() ==> (step matches LoginStep::Lookup(l) && is_session_id(
                l.session_id@,
            ) && step@ == login_first_step(password@, user_name@, l.session_id@)),
    {
        login_start(user_name, password.as_str())
    }
}

} // verus!
