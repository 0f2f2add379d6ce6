//! What the hot-reloadable server reports when it stops: a panic turned into an error, and
//! the notice of a shutdown signal.
use vstd::prelude::*;

verus! {

/// Rust's debug rendering of the string `s`: quoted, with escapes.
pub uninterp spec fn debug_text(s: Seq<char>) -> Seq<char>;

/// Renders `s` with `format!("{:?}", s)`, the `Debug` rendering of a string.
/// Claims that the result is that rendering of `s`, and nothing of its form.
#[verifier::external_body]
fn debug_quoted(s: &str) -> (text: String)
    ensures
        text@ == debug_text(s@),
{
    format!("{:?}", s)
}

/// What a panic left behind, as far as the report reads it.
#[derive(Debug, Clone, PartialEq, Eq)]
pub enum PanicPayload {
    /// The panic's message, which was a `String` or a `&str`.
    Message(String),
    /// A payload of another type.
    Other,
}

/// The error that reports a panic.
#[derive(Debug, Clone, PartialEq, Eq)]
pub struct UnhandledError {
    /// The text of the error.
    pub message: String,
}

/// The text that reports a panic with this payload: `Unhandled Error: ` followed by the
/// debug rendering of its message, or by `Any { .. }` for a payload of another type.
pub open spec fn unwound_error_text(payload: PanicPayload) -> Seq<char> {
    "Unhandled Error: "@ + match payload {
        PanicPayload::Message(m) => debug_text(m@),
        PanicPayload::Other => "Any { .. }"@,
    }
}

/// Turns what a caught panic left behind into the error that the server reports.
pub fn get_unwound_error(err: PanicPayload) -> (e: UnhandledError)
    ensures
        e.message@ == unwound_error_text(err),
{
    let detail = match &err {
        PanicPayload::Message(m) => debug_quoted(m.as_str()),
        PanicPayload::Other => String::from_str("Any { .. }"),
    };
    UnhandledError { message: String::from_str("Unhandled Error: ").concat(detail.as_str()) }
}

/// The notice when the wait for a shutdown signal ends: the signal came, or the channel
/// that would carry it was closed.
pub fn shutdown_message(signal_received: bool) -> (m: String)
    ensures
        m@ == if signal_received {
            "received shutdown_server signal, time to shut down"@
        } else {
            "shutdown_server listening channel closed"@
        },
{
    if signal_received {
        String::from_str("received shutdown_server signal, time to shut down")
    } else {
        String::from_str("shutdown_server listening channel closed")
    }
}

} // verus!
