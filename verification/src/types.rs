//! The records that authentication reads.

use vstd::prelude::*;

verus! {

/// A user as authentication knows them.
#[derive(Clone, Debug)]
pub struct User {
    /// The user's identifier, of the form `table:record`.
    pub id: String,
    /// The name the user signed up with.
    pub username: String,
}

/// The stored record of an API key. The long token of the key is not among
/// its fields: the key is found by the digest of that token.
#[derive(Clone, Debug)]
pub struct Token {
    /// The digest of the key's long token.
    pub token_hash: String,
    /// The name the owner gave the key.
    pub name: String,
    /// The key's short token.
    pub short_token: String,
    /// The identifier of the owner, of the form `table:record`.
    pub user: String,
}

/// A link as a request hands it in.
#[derive(Clone, Debug)]
pub struct LinkPayload {
    /// The address of the link.
    pub url: String,
    /// The title under which the link is kept.
    pub title: String,
    /// What the user noted about the link.
    pub note: String,
}

/// A user as the database holds them.
#[derive(Debug)]
pub struct UserDBResult {
    /// The user's identifier, of the form `table:record`.
    pub id: String,
    /// The name the user signed up with.
    pub username: String,
    /// The hash of the user's password, as a PHC string.
    pub password: String,
}

/// What is stored of a new user.
#[derive(Clone, Debug)]
pub struct CreateUserContent {
    /// The name the user signs up with.
    pub username: String,
    /// The hash of the user's password, as a PHC string.
    pub password: String,
}

impl From<UserDBResult> for User {
    /// The user of a database record: its identifier and name, without the
    /// password hash.
    fn from(db_result: UserDBResult) -> (user: Self) {
        Self { id: db_result.id, username: db_result.username }
    }
}

impl vstd::std_specs::convert::FromSpecImpl<UserDBResult> for User {
    open spec fn obeys_from_spec() -> bool {
        true
    }

    open spec fn from_spec(db_result: UserDBResult) -> Self {
        User { id: db_result.id, username: db_result.username }
    }
}

} // verus!
