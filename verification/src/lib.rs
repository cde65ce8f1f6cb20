//! Session-based authentication in front of a small web service.
//!
//! Identity is proved by an external OAuth2 provider; this crate then issues
//! and verifies its own two-part session tokens. Everything here is free of
//! I/O: the flows are state machines that say which storage or network
//! action comes next and take its outcome as their next event.

pub mod errors;
pub mod identifiers;
pub mod login;
pub mod middlewares;
pub mod models;
pub mod oauth_return;
pub mod posts;
pub mod profile;
pub mod provider;
pub mod repositories;
pub mod session;
pub mod text;
pub mod token;

