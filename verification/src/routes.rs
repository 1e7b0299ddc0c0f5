//! What the handlers of the service compute, apart from what they store and
//! send.

pub mod auth;
pub mod token;
