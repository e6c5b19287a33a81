//! Authorization-code grant lifecycle: credential checks, one-time grant
//! codes, code-for-token exchange and bearer session validation.
pub mod code;
pub mod lifecycle;
pub mod password;
pub mod routes;
pub mod store;
pub mod token;
pub mod types;
