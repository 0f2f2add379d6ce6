//! The key that signs the session cookies.
use crate::base64url::{base64_url_decoding, decode_url_safe};
use vstd::prelude::*;

verus! {

/// Why the cookie key could not be had.
#[derive(Debug, Clone, Copy, PartialEq, Eq, Structural)]
pub enum CookieKeyError {
    /// The `COOKIE_KEY` setting is absent.
    NotSet,
    /// The setting is not URL-safe base64 without padding.
    NotBase64,
}

impl CookieKeyError {
    /// The text reported for the error.
    pub fn message(&self) -> (m: String)
        ensures
            m@ == match *self {
                CookieKeyError::NotSet => "COOKIE_KEY is not set"@,
                CookieKeyError::NotBase64 => "COOKIE_KEY not base64"@,
            },
    {
        match self {
            CookieKeyError::NotSet => String::from_str("COOKIE_KEY is not set"),
            CookieKeyError::NotBase64 => String::from_str("COOKIE_KEY not base64"),
        }
    }
}

/// The bytes of the cookie key, from the `COOKIE_KEY` setting (absent as `None`): its text
/// decoded as URL-safe base64 without padding.
pub fn cookie_key_bytes(cookie_key: Option<String>) -> (r: Result<Vec<u8>, CookieKeyError>)
    ensures
        match cookie_key {
            None => r == Err::<Vec<u8>, CookieKeyError>(CookieKeyError::NotSet),
            Some(text) => match base64_url_decoding(text@) {
                Some(bytes) => r matches Ok(b) && b@ == bytes,
                None => r == Err::<Vec<u8>, CookieKeyError>(CookieKeyError::NotBase64),
            },
        },
{
    match cookie_key {
        None => Err(CookieKeyError::NotSet),
        Some(text) => match decode_url_safe(text.as_str()) {
            Ok(bytes) => Ok(bytes),
            Err(_) => Err(CookieKeyError::NotBase64),
        },
    }
}

} // verus!
