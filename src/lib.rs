//! Credential verification and session identity for a password login service.
//!
//! The library checks an email/password pair against the stored user records,
//! turns the authenticated principal into an opaque session token, and turns
//! such a token back into a principal on later requests.
pub mod auth;
pub mod codec;
pub mod credential;
pub mod directory;
pub mod errors;
pub mod models;
