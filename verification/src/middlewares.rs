//! What runs on a request before its handler.

pub mod auth;
