//! Settings that the servers read from their environment.
use vstd::prelude::*;

verus! {

/// A setting that the environment does not provide.
#[derive(Debug, Clone, PartialEq, Eq)]
pub struct MissingSetting {
    /// The setting's name, such as `HOST`.
    pub name: String,
}

impl MissingSetting {
    /// The text reported for the missing setting: `{name} is not set`.
    pub fn message(&self) -> (m: String)
        ensures
            m@ == self.name@ + " is not set"@,
    {
        String::from_str(self.name.as_str()).concat(" is not set")
    }
}

/// The value of the setting `name`, which the environment gave as `value`; a setting that
/// is absent is an error that names it.
pub fn required_setting(name: &str, value: Option<String>) -> (r: Result<String, MissingSetting>)
    ensures
        match value {
            Some(v) => r matches Ok(s) && s@ == v@,
            None => r matches Err(e) && e.name@ == name@,
        },
{
    match value {
        Some(v) => Ok(v),
        None => Err(MissingSetting { name: String::from_str(name) }),
    }
}

/// The most connections the database pool opens.
pub const MAX_DB_CONNECTIONS: u32 = 100;

/// The fewest connections the database pool keeps open.
pub const MIN_DB_CONNECTIONS: u32 = 0;

} // verus!
