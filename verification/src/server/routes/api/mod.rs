//! The API routes of the server.
pub mod authenticate;
pub mod hello_world;
pub mod security;
pub mod session;
pub mod test;
pub mod todo;
