//! The poem server: its endpoints and the address it listens on.
pub mod api;
pub mod index;
