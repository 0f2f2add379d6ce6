//! The decisions of a hot-reloadable web server, with their proofs: the texts its handlers
//! answer, the ports and URLs it uses, session identifiers and the cookie key, the login
//! exchange, and the run of a server or migration against the database.

pub mod base64url;
pub mod clock;
pub mod config;
pub mod greeting;
pub mod heart;
pub mod http;
pub mod json;
pub mod lifecycle;
pub mod login;
pub mod net;
pub mod poem_app;
pub mod server;
pub mod session_id;
pub mod session_store;
pub mod text;
