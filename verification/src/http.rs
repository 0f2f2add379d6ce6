//! Error answers of the HTTP handlers.
use vstd::prelude::*;

verus! {

/// An error answer: an HTTP status and a text.
#[derive(Debug, Clone, PartialEq, Eq)]
pub struct HttpError {
    /// The HTTP status code.
    pub status: u16,
    /// The text of the answer.
    pub message: String,
}

/// The status of an internal server error.
pub const INTERNAL_SERVER_ERROR: u16 = 500;

/// The status of a missing resource.
pub const NOT_FOUND: u16 = 404;

impl HttpError {
    /// An internal server error that carries the text of the error behind it.
    pub fn internal(message: String) -> (e: HttpError)
        ensures
            e.status == INTERNAL_SERVER_ERROR,
            e.message@ == message@,
    {
        HttpError { status: INTERNAL_SERVER_ERROR, message }
    }
}

/// The answer of a handler that hands on what a storage call returned: its value, or an
/// internal server error with the text of its error.
pub fn storage_reply<T>(result: Result<T, String>) -> (r: Result<T, HttpError>)
    ensures
        match result {
            Ok(v) => r == Ok::<T, HttpError>(v),
            Err(m) => r matches Err(e) && e.status == INTERNAL_SERVER_ERROR && e.message@ == m@,
        },
{
    match result {
        Ok(v) => Ok(v),
        Err(m) => Err(HttpError::internal(m)),
    }
}

/// The two forms in which the API's description is served.
#[derive(Debug, Clone, Copy, PartialEq, Eq, Structural)]
pub enum SpecFormat {
    Json,
    Yaml,
}

/// The file extension of a description format.
pub open spec fn spec_extension(format: SpecFormat) -> Seq<char> {
    match format {
        SpecFormat::Json => "json"@,
        SpecFormat::Yaml => "yaml"@,
    }
}

impl SpecFormat {
    /// The `Content-Type` of the description in this format.
    pub fn content_type(&self) -> (t: String)
        ensures
            t@ == match *self {
                SpecFormat::Json => "application/json"@,
                SpecFormat::Yaml => "application/x-yaml"@,
            },
    {
        match self {
            SpecFormat::Json => String::from_str("application/json"),
            SpecFormat::Yaml => String::from_str("application/x-yaml"),
        }
    }

    /// The `Content-Disposition` of the description: shown inline, as the file
    /// `swagger.{extension}`.
    pub fn content_disposition(&self) -> (d: String)
        ensures
            d@ == "inline; filename=\"swagger."@ + spec_extension(*self) + "\""@,
    {
        let extension = match self {
            SpecFormat::Json => "json",
            SpecFormat::Yaml => "yaml",
        };
        String::from_str("inline; filename=\"swagger.").concat(extension).concat("\"")
    }
}

} // verus!
