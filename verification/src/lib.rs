//! Request authentication for a multi-tenant link shelf service.
//!
//! Every request is tied to a caller through one of two credentials: a
//! short-lived signed session token, or a long-lived prefixed API key of which
//! only a one-way digest is ever stored.
//!
//! - [`digest`]: the one-way digest of secret material.
//! - [`prefixed_api_key`]: reading, writing, generating and redacting keys.
//! - [`auth`]: issuing and validating session tokens.
//! - [`middlewares::auth`]: resolving the caller from the headers of a request.
//! - [`ctx`]: the resolved identity.
//! - [`error`]: the failures, and how each is shown to a client.
//! - [`routes`]: what sign-up, sign-in and the issuing of keys compute.
//! - [`configuration`]: the settings of the service.
//! - [`types`]: the records that authentication reads.
//! - [`text`]: splitting texts at a delimiter.
//!
//! Hashing, encoding, signing and random bytes come from other crates. Each
//! call into one of them stands in a small function of its own whose
//! documentation says what is taken on trust about it.

pub mod auth;
pub mod configuration;
pub mod ctx;
pub mod digest;
pub mod error;
pub mod middlewares;
pub mod prefixed_api_key;
pub mod routes;
pub mod text;
pub mod types;
