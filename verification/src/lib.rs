//! JWT-based login/logout lifecycle for a small web service: a credential
//! store checked at login, an HS256 token issuer and validator, and a
//! revocation registry that rotates and retires refresh tokens.

pub mod auth_error;
pub mod clock;
pub mod jwt;
pub mod registry;
pub mod service;
pub mod store;
pub mod user;
