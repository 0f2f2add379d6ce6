//! The routes of the axum server.
pub mod api;
pub mod hot;
pub mod index;
