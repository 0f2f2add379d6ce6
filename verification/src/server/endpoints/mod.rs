//! The endpoints of the poem server.
pub mod api;
pub mod index;
