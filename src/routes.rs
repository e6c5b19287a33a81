//! The operations behind the server's endpoints.
pub mod admin;
pub mod auth;
