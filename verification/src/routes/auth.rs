//! Signing up and signing in.
//!
//! A user signs up with a name and a password, of which only an Argon2 hash
//! is stored, and signs in with the same two. Either way the user leaves with
//! a session token. What is asked of the database in between is not done
//! here: each function takes what the database answered.

use crate::auth::{accepted, create_jwt_at, decoded, issued, validate_jwt_at, Claims, ClaimsView};
use crate::error::{Error, Result};
use crate::middlewares::auth::{bearer, bearer_token, header_bytes, header_text, utf8_text};
use crate::types::{CreateUserContent, User, UserDBResult};
use vstd::prelude::*;

verus! {

/// What a user gets on signing up or in.
#[derive(Debug)]
pub struct UserResponse {
    /// The user's identifier.
    pub id: String,
    /// The user's name.
    pub username: String,
    token: String,
}

/// What a user gets on signing up or in, as texts.
pub struct UserResponseView {
    pub id: Seq<char>,
    pub username: Seq<char>,
    pub token: Seq<char>,
}

impl View for UserResponse {
    type V = UserResponseView;

    closed spec fn view(&self) -> UserResponseView {
        UserResponseView { id: self.id@, username: self.username@, token: self.token@ }
    }
}

impl UserResponse {
    /// The session token.
    pub fn token(&self) -> (token: &str)
        ensures
            token@ == self@.token,
    {
        self.token.as_str()
    }
}

/// Whether `password` is the password that the PHC string `stored` is the
/// Argon2 hash of, as the `argon2` crate decides it with its default
/// settings; `None` where `stored` is no PHC string.
pub uninterp spec fn argon2_check(password: Seq<u8>, stored: Seq<char>) -> Option<bool>;

/// Calls `argon2::PasswordHash::new` on `stored` and, with the hash it gives,
/// `verify_password` of `argon2::Argon2::default()`. Trusted: the answer
/// depends on the password and the stored text alone.
#[verifier::external_body]
fn verify_password(password: &[u8], stored: &str) -> (matches: Option<bool>)
    ensures
        matches == argon2_check(password@, stored@),
{
    match argon2::PasswordHash::new(stored) {
        Ok(hash) => Some(
            argon2::PasswordVerifier::verify_password(&argon2::Argon2::default(), password, &hash)
                .is_ok(),
        ),
        Err(_) => None,
    }
}

/// Calls `argon2::password_hash::SaltString::generate` with the operating
/// system's random source, and with that salt `hash_password` of
/// `argon2::Argon2::default()`; the hash is handed back as a PHC string, and
/// `None` where hashing fails. Trusted: a hash made this way verifies against
/// the password it was made of. The salt is random, so nothing else is known
/// of the result.
#[verifier::external_body]
fn hash_password(password: &[u8]) -> (hash: Option<String>)
    ensures
        hash matches Some(made) ==> argon2_check(password@, made@) == Some(true),
{
    let salt = argon2::password_hash::SaltString::generate(
        &mut argon2::password_hash::rand_core::OsRng,
    );
    match argon2::PasswordHasher::hash_password(&argon2::Argon2::default(), password, &salt) {
        Ok(hash) => Some(hash.to_string()),
        Err(_) => None,
    }
}

/// What becomes of a user whose password was checked against the stored
/// hash: a hash that cannot be read fails with `SignInFail`, a password that
/// is not the stored one with `InvalidCredentials`, and the right password
/// signs the user in.
pub open spec fn checked(user: UserDBResult, matches: Option<bool>) -> core::result::Result<
    User,
    Error,
> {
    match matches {
        None => Err(Error::SignInFail),
        Some(false) => Err(Error::InvalidCredentials),
        Some(true) => Ok(User { id: user.id, username: user.username }),
    }
}

/// Who has signed in, given what the database holds under the user name and
/// the password that was sent: an unknown user fails with
/// `InvalidCredentials`, and a known one is checked by their password.
pub open spec fn signed_in(found: Option<UserDBResult>, password: Seq<char>)
    -> core::result::Result<User, Error> {
    match found {
        None => Err(Error::InvalidCredentials),
        Some(user) => checked(
            user,
            argon2_check(vstd::utf8::encode_utf8(password), user.password@),
        ),
    }
}

/// A user whose stored hash the password verifies against signs in with that
/// password: as the user of the stored record.
pub proof fn lemma_sign_in_after_sign_up(user: UserDBResult, password: Seq<char>)
    requires
        argon2_check(vstd::utf8::encode_utf8(password), user.password@) == Some(true),
    ensures
        signed_in(Some(user), password) == Ok::<User, Error>(
            User { id: user.id, username: user.username },
        ),
{
}

/// Whose claims an `Authorization` header carries at `now`. A header that is
/// absent, not UTF-8 or not `Bearer ` and a token fails with
/// `InvalidAuthHeader`, and a token that is not accepted with the failure it
/// was turned down with.
pub open spec fn user_info(header: Option<Seq<u8>>, secret: Seq<u8>, now: i64)
    -> core::result::Result<ClaimsView, Error> {
    match header {
        None => Err(Error::InvalidAuthHeader),
        Some(value) => match header_text(value) {
            None => Err(Error::InvalidAuthHeader),
            Some(text) => match bearer(text) {
                None => Err(Error::InvalidAuthHeader),
                Some(token) => accepted(decoded(token, secret), now),
            },
        },
    }
}

/// Checks that the password sent at sign-up and its confirmation are the
/// same text; if not, `PasswordConfirmMismatch`.
pub fn check_password_confirm(password: &str, password_confirm: &str) -> (checked: Result<()>)
    ensures
        password@ == password_confirm@ ==> checked is Ok,
        password@ != password_confirm@ ==> checked is Err && checked->Err_0
            == Error::PasswordConfirmMismatch,
{
    if String::from_str(password) == String::from_str(password_confirm) {
        Ok(())
    } else {
        Err(Error::PasswordConfirmMismatch)
    }
}

/// Checks that the database holds no user under the name asked for at
/// sign-up; if it does, `UsernameExists`.
pub fn check_username_free(found: Option<&UserDBResult>) -> (checked: Result<()>)
    ensures
        found is None ==> checked is Ok,
        found is Some ==> checked is Err && checked->Err_0 == Error::UsernameExists,
{
    match found {
        None => Ok(()),
        Some(_) => Err(Error::UsernameExists),
    }
}

/// What to store of a new user, given the hash that was made of the
/// password: the name and the hash, or `SignUpFail` where no hash was made.
pub fn user_content(username: String, password_hash: Option<String>) -> (content: Result<
    CreateUserContent,
>)
    ensures
        match password_hash {
            Some(hash) => content == Ok::<CreateUserContent, Error>(
                CreateUserContent { username, password: hash },
            ),
            None => content == Err::<CreateUserContent, Error>(Error::SignUpFail),
        },
{
    match password_hash {
        Some(password_hash) => Ok(CreateUserContent { username, password: password_hash }),
        None => Err(Error::SignUpFail),
    }
}

/// What to store of a new user: the name, and a fresh hash of the password,
/// against which the password verifies. Fails with `SignUpFail` where the
/// password cannot be hashed.
pub fn new_user_content(username: String, password: &str) -> (content: Result<CreateUserContent>)
    ensures
        content matches Ok(content) ==> content.username == username && argon2_check(
            vstd::utf8::encode_utf8(password@),
            content.password@,
        ) == Some(true),
        content matches Err(error) ==> error == Error::SignUpFail,
{
    user_content(username, hash_password(password.as_bytes()))
}

/// The user that the database made of a new record: the first it hands back,
/// or `SignUpFail` where it hands back none.
pub fn created_user(mut result: Vec<User>) -> (user: Result<User>)
    ensures
        result@.len() > 0 ==> user == Ok::<User, Error>(result@[0]),
        result@.len() == 0 ==> user == Err::<User, Error>(Error::SignUpFail),
{
    if result.len() == 0 {
        Err(Error::SignUpFail)
    } else {
        Ok(result.swap_remove(0))
    }
}

/// Decides on a user whose password was checked against the stored hash.
pub fn password_checked(user: UserDBResult, matches: Option<bool>) -> (signed_in: Result<User>)
    ensures
        signed_in == checked(user, matches),
{
    match matches {
        Some(true) => Ok(User::from(user)),
        Some(false) => Err(Error::InvalidCredentials),
        None => Err(Error::SignInFail),
    }
}

/// Decides a sign-in, given what the database holds under the user name and
/// the password that was sent.
pub fn authenticate(found: Option<UserDBResult>, password: &str) -> (user: Result<User>)
    ensures
        user == signed_in(found, password@),
{
    let user = match found {
        Some(user) => user,
        None => {
            return Err(Error::InvalidCredentials);
        },
    };
    let matches = verify_password(password.as_bytes(), user.password.as_str());
    password_checked(user, matches)
}

/// What `user` gets on signing up or in at `now`: their identifier and name,
/// and a session token issued at `now`.
pub fn user_response(user: &User, secret: &[u8], now: i64) -> (response: Result<UserResponse>)
    ensures
        match issued(user.id@, user.username@, secret@, now) {
            Ok(token) => response is Ok && response->Ok_0@ == (UserResponseView {
                id: user.id@,
                username: user.username@,
                token,
            }),
            Err(error) => response is Err && response->Err_0 == error,
        },
{
    match create_jwt_at(user, secret, now) {
        Ok(token) => Ok(
            UserResponse { id: user.id.clone(), username: user.username.clone(), token },
        ),
        Err(error) => Err(error),
    }
}

/// The claims of the session token in an `Authorization` header, at `now`.
pub fn get_user_info(auth_header: Option<&[u8]>, secret: &[u8], now: i64) -> (claims: Result<
    Claims,
>)
    ensures
        match user_info(header_bytes(auth_header), secret@, now) {
            Ok(view) => claims is Ok && claims->Ok_0@ == view,
            Err(error) => claims is Err && claims->Err_0 == error,
        },
{
    let auth_header = match auth_header {
        Some(value) => value,
        None => {
            return Err(Error::InvalidAuthHeader);
        },
    };
    let auth_header = match utf8_text(auth_header) {
        Some(text) => text,
        None => {
            return Err(Error::InvalidAuthHeader);
        },
    };
    match bearer_token(auth_header) {
        Some(bearer_token) => validate_jwt_at(bearer_token, secret, now),
        None => Err(Error::InvalidAuthHeader),
    }
}

} // verus!
