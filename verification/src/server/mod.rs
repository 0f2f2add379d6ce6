//! The server: its hot-reload entry points, its routes and endpoints, and its sessions.
pub mod endpoints;
pub mod hot;
pub mod routes;
pub mod session;
