//! Core of a small authentication backend: password hashing and checking,
//! bearer-token issuance and validation, an IP-based access gate, and the
//! registration/login logic over an in-memory credential store.

use vstd::prelude::*;

mod api;
mod auth;
mod errors;
mod ip;
mod password;
mod security;
mod stats;
mod store;

pub use auth::register_user;
pub use auth::login_user;
pub use auth::AuthResponse;
pub use auth::User;
pub use auth::UserCredentials;
pub use store::Credential;
pub use store::CredentialStore;
pub use api::ping_response;
pub use api::ApiResponse;
pub use api::PingResponse;
pub use errors::status_for_error;
pub use stats::get_stats;
pub use stats::stats_request;
pub use stats::Stats;
pub use ip::is_ip_allowed;
pub use errors::AuthError;
pub use password::hash_password;
pub use password::verify_password;
pub use security::create_jwt;
pub use security::create_jwt_at;
pub use security::current_unix_time;
pub use security::verify_jwt;
pub use security::verify_jwt_at;
pub use security::Claims;
pub use security::JwtToken;

verus! {

} // verus!
