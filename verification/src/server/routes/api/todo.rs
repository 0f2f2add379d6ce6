//! The to-do route, which checks the database before it answers.
use crate::greeting::prefixed_text;
use crate::http::{HttpError, INTERNAL_SERVER_ERROR};
use vstd::prelude::*;

verus! {

/// The body of a to-do request.
#[derive(Debug, Clone, PartialEq, Eq)]
pub struct Todo {
    pub test: String,
}

/// The tags under which the to-do route is documented.
#[derive(Debug, Clone, Copy, PartialEq, Eq)]
pub enum Tags {
    /// To-do operations.
    Todo,
}

/// The session entry that the to-do route sets, and the value it sets.
pub const SESSION_NAME_ENTRY: &'static str = "name";

/// The answer of `/todo` for what the database's ping returned. A failed ping is answered
/// with an internal server error, "Failed to ping database", and the session is left
/// alone. Otherwise the answer is `todo_put:{test}`, together with the session entry to
/// set (`name` holding `name`) before the session is marked for update.
pub fn todo_put(todo: Todo, ping: Result<(), String>) -> (r: Result<(String, (String, String)), HttpError>)
    ensures
        match ping {
            Err(_) => r matches Err(e) && e.status == INTERNAL_SERVER_ERROR && e.message@
                == "Failed to ping database"@,
            Ok(()) => r matches Ok((text, (key, value))) && text@ == "todo_put:"@ + todo.test@
                && key@ == "name"@ && value@ == "name"@,
        },
{
    match ping {
        Err(_) => Err(ping_failure()),
        Ok(()) => {
            let text = prefixed_text("todo_put:", todo.test.as_str());
            Ok((text, (String::from_str(SESSION_NAME_ENTRY), String::from_str(SESSION_NAME_ENTRY))))
        },
    }
}

/// The answer of `/todo` when the database does not answer its ping: an internal server
/// error that says so.
pub fn ping_failure() -> (e: HttpError)
    ensures
        e.status == INTERNAL_SERVER_ERROR,
        e.message@ == "Failed to ping database"@,
{
    HttpError::internal(String::from_str("Failed to ping database"))
}

} // verus!
