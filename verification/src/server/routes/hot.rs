//! The version of the loaded code: the time at which its routes were made.
use crate::clock::now_timestamp;
use crate::text::{i64_to_text, signed_decimal};
use vstd::prelude::*;

verus! {

/// When the routes of the loaded code were made, in seconds since the Unix epoch.
#[derive(Debug, Clone, Copy, PartialEq, Eq)]
pub struct HotVersion {
    pub data: i64,
}

impl HotVersion {
    /// The version of code whose routes are made now.
    pub fn now() -> (v: HotVersion)
        ensures
            v.data >= 0,
    {
        HotVersion { data: now_timestamp() }
    }

    /// The answer of the version route: the time in decimal.
    pub fn loaded_version(&self) -> (text: String)
        ensures
            text@ == signed_decimal(self.data as int),
    {
        i64_to_text(self.data)
    }
}

} // verus!
