//! The hot-reloaded library of the axum server: its pages, its login and its session store routes.
pub mod authenticate;
pub mod axum_session;
pub mod index;
