//! Records, requests and responses of the authorization server.
use vstd::prelude::*;

use crate::store::Database;

verus! {

/// Why an operation was refused.
#[derive(Clone, Copy, Debug, PartialEq, Eq, Structural)]
pub enum AuthError {
    /// Unknown user name or wrong password.
    InvalidCredentials,
    /// Unknown client, or a redirect target outside its allow-list.
    InvalidClientConfig,
    /// No live grant carries the presented code.
    InvalidGrant,
    /// No live session carries the presented bearer key.
    InvalidSession,
    /// The request itself is malformed (for instance its authorization header).
    InvalidRequest,
    /// The password hashing function could not run.
    HashingError,
    /// The identity token could not be signed.
    SigningError,
    /// The store refused the operation.
    StoreError,
    /// The administration endpoints are switched off.
    AdminDisabled,
}

pub struct AdminCreateUserRequest {
    pub username: String,
    pub password: String,
}

pub struct AdminCreateApplicationRequest {
    pub app_name: String,
    /// Comma-separated list of allowed redirect targets.
    pub redirect_uris: String,
}

pub struct TokenRequest {
    pub grant_type: String,
    pub code: String,
    pub redirect_uri: String,
}

#[derive(Clone, Debug, PartialEq, Eq)]
pub struct TokenResponse {
    pub access_token: String,
    pub token_type: String,
    pub id_token: String,
    /// Lifetime of the access token, in minutes.
    pub expires_in: u64,
}

pub struct AuthRequest {
    pub redirect_uri: String,
    pub client_id: String,
}

#[derive(Debug)]
pub struct LoginRequest {
    pub username: String,
    pub password: String,
    pub redirect_uri: String,
    pub client_id: String,
}

/// What the login prompt is rendered from.
#[derive(Clone, Debug, PartialEq, Eq)]
pub struct AuthTemplate {
    pub redirect_uri: String,
    pub client_id: String,
}

/// The administration panel page; it carries no data.
#[derive(Clone, Copy, Debug, PartialEq, Eq, Structural)]
pub struct AdminPanelTemplate {}

/// A registered user.
#[derive(Clone, Debug, PartialEq, Eq)]
pub struct DbUser {
    pub id: String,
    pub username: String,
    pub password_hash: String,
}

/// A one-time authorization grant: `user_id` authenticated for `client_id`.
#[derive(Clone, Debug, PartialEq, Eq)]
pub struct DbApplicationGrant {
    pub client_id: String,
    pub code: String,
    pub user_id: String,
    /// The first minute at which the code is no longer accepted.
    pub expires: u64,
}

/// A registered client application.
#[derive(Clone, Debug, PartialEq, Eq)]
pub struct DbApplication {
    pub id: String,
    pub name: String,
    pub secret: String,
    pub redirect_uris: Vec<String>,
}

/// An issued bearer session.
#[derive(Clone, Debug, PartialEq, Eq)]
pub struct DbSession {
    pub user_id: String,
    pub client_id: String,
    /// The first minute at which the session is no longer accepted.
    pub expires: u64,
    pub session_key: String,
    pub id_token: String,
}

/// Settings read once at startup.
#[derive(Clone, Debug)]
pub struct Config {
    /// Address of an external document store. The in-memory `Database`
    /// does not use it.
    pub mongodb_uri: String,
    pub jwt_secret: String,
    pub listen_address: String,
    pub admin_panel_enabled: bool,
}

#[derive(Clone, Debug, PartialEq, Eq)]
pub struct UserInfoResponse {
    pub sub: String,
}

/// Everything a request handler works with.
pub struct AppState {
    pub database: Database,
    pub config: Config,
}

} // verus!
