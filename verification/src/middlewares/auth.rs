//! Resolving the identity of the caller from the headers of a request.
//!
//! A request may carry a session token in its `Authorization` header or an
//! API key in its `X-Api-Token` header. The session token is looked at first:
//! where an `Authorization` header is present, the API key is never used, so
//! that a session token that has run out cannot hide behind a key.
//!
//! A session token is settled here. An API key needs one step outside: its
//! digest has to be looked up in the key store. So resolution comes in two
//! halves, [`resolve_at`] before the lookup and [`conclude_lookup`] after it.

use crate::auth::{accepted, current_timestamp, decoded, on_clock, validate_jwt_at};
use crate::ctx::Ctx;
use crate::error::{Error, Result};
use crate::prefixed_api_key::{
    external_form, lemma_parse_of_external_form, long_token_digest, parse, well_formed, KeyParts,
    PrefixedApiKey,
};
use crate::text::{first_index, lemma_first_index, scan_delimiter};
use crate::types::Token;
use vstd::prelude::*;
use vstd::utf8::{decode_utf8, encode_utf8, valid_utf8};

verus! {

/// The name of the header that carries a session token.
pub const AUTHORIZATION_HEADER: &'static str = "Authorization";

/// The name of the header that carries an API key.
pub const API_TOKEN_HEADER: &'static str = "X-Api-Token";

/// The number of characters in `Bearer `, the scheme of a session token with
/// the space behind it.
pub const BEARER_LEN: usize = 7;

/// The character that ends a session token within a header.
pub const LINE_FEED: char = '\n';

/// The text of a header value, if its bytes are UTF-8.
pub open spec fn header_text(value: Seq<u8>) -> Option<Seq<char>> {
    if valid_utf8(value) {
        Some(decode_utf8(value))
    } else {
        None
    }
}

/// The session token in the text of an `Authorization` header: the text must
/// begin with `Bearer `, and the token is what follows, up to the first line
/// feed or else the end. It must not be empty.
pub open spec fn bearer(header: Seq<char>) -> Option<Seq<char>> {
    if header.len() > BEARER_LEN && header.take(BEARER_LEN as int) == "Bearer "@ {
        let rest = header.skip(BEARER_LEN as int);
        let end = first_index(rest, LINE_FEED);
        if end > 0 {
            Some(rest.take(end))
        } else {
            None
        }
    } else {
        None
    }
}

/// The subject that an `Authorization` header stands for at `now`.
///
/// A value that is not `Bearer ` and a token fails with `InvalidAuthHeader`,
/// and so does one that is not UTF-8, which cannot be of that form. A token
/// that is not accepted fails with the failure it was turned down with.
pub open spec fn user_from_auth_header(value: Seq<u8>, secret: Seq<u8>, now: i64)
    -> core::result::Result<Seq<char>, Error> {
    match header_text(value) {
        None => Err(Error::InvalidAuthHeader),
        Some(text) => match bearer(text) {
            None => Err(Error::InvalidAuthHeader),
            Some(token) => match accepted(decoded(token, secret), now) {
                Ok(claims) => Ok(claims.sub),
                Err(error) => Err(error),
            },
        },
    }
}

/// The digest to look up for an `X-Api-Token` header.
///
/// A value that is not the external form of a key fails with `InvalidToken`,
/// and so does one that is not UTF-8, which cannot be read as a key.
pub open spec fn digest_from_token_header(value: Seq<u8>) -> core::result::Result<
    Seq<char>,
    Error,
> {
    match header_text(value) {
        None => Err(Error::InvalidToken),
        Some(text) => match parse(text) {
            None => Err(Error::InvalidToken),
            Some(parts) => Ok(long_token_digest(parts.long_token)),
        },
    }
}

/// Where resolution stands when the headers have been looked at.
#[derive(Debug)]
pub enum Resolution {
    /// The caller is known.
    Resolved(Ctx),
    /// The caller cannot be known.
    Failed(Error),
    /// The caller is the owner of the API key with this digest, if the key
    /// store has such a key.
    Lookup(String),
}

/// Where resolution stands, with texts for the identity and the digest.
pub enum ResolutionView {
    Resolved(Seq<char>),
    Failed(Error),
    Lookup(Seq<char>),
}

impl View for Resolution {
    type V = ResolutionView;

    open spec fn view(&self) -> ResolutionView {
        match self {
            Resolution::Resolved(ctx) => ResolutionView::Resolved(ctx@),
            Resolution::Failed(error) => ResolutionView::Failed(*error),
            Resolution::Lookup(digest) => ResolutionView::Lookup(digest@),
        }
    }
}

/// Where resolution stands for a request with these two headers at `now`.
///
/// With an `Authorization` header the session token decides, whatever the
/// other header holds. Without one, an `X-Api-Token` header leads to a
/// lookup. Without either, the request fails with `MissingAuth`.
pub open spec fn resolution(
    authorization: Option<Seq<u8>>,
    api_token: Option<Seq<u8>>,
    secret: Seq<u8>,
    now: i64,
) -> ResolutionView {
    match (authorization, api_token) {
        (Some(value), _) => match user_from_auth_header(value, secret, now) {
            Ok(user_id) => ResolutionView::Resolved(user_id),
            Err(error) => ResolutionView::Failed(error),
        },
        (None, Some(value)) => match digest_from_token_header(value) {
            Ok(digest) => ResolutionView::Lookup(digest),
            Err(error) => ResolutionView::Failed(error),
        },
        (None, None) => ResolutionView::Failed(Error::MissingAuth),
    }
}

/// The bytes of a header that may be absent.
pub open spec fn header_bytes(header: Option<&[u8]>) -> Option<Seq<u8>> {
    match header {
        Some(value) => Some(value@),
        None => None,
    }
}

/// With an `Authorization` header present, the `X-Api-Token` header has no
/// part in the outcome, and no lookup is asked for.
pub proof fn lemma_session_token_takes_precedence(
    authorization: Seq<u8>,
    api_token: Option<Seq<u8>>,
    other_api_token: Option<Seq<u8>>,
    secret: Seq<u8>,
    now: i64,
)
    ensures
        resolution(Some(authorization), api_token, secret, now) == resolution(
            Some(authorization),
            other_api_token,
            secret,
            now,
        ),
        !(resolution(Some(authorization), api_token, secret, now) is Lookup),
{
}

/// A request fails with `MissingAuth` exactly when it carries neither header.
pub proof fn lemma_missing_auth(
    authorization: Option<Seq<u8>>,
    api_token: Option<Seq<u8>>,
    secret: Seq<u8>,
    now: i64,
)
    ensures
        resolution(authorization, api_token, secret, now) == ResolutionView::Failed(
            Error::MissingAuth,
        ) <==> authorization is None && api_token is None,
{
}

/// What an `Authorization` header can come to: one that is not `Bearer ` and
/// a token, or not UTF-8, fails with `InvalidAuthHeader`; one with a token
/// resolves to the subject of the token, or fails as the token does, with
/// `JWTValidationError` or `AuthExpired`.
pub proof fn lemma_authorization_outcomes(
    authorization: Seq<u8>,
    api_token: Option<Seq<u8>>,
    secret: Seq<u8>,
    now: i64,
)
    ensures
        !valid_utf8(authorization) || bearer(decode_utf8(authorization)) is None ==> resolution(
            Some(authorization),
            api_token,
            secret,
            now,
        ) == ResolutionView::Failed(Error::InvalidAuthHeader),
        valid_utf8(authorization) && bearer(decode_utf8(authorization)) is Some ==> ({
            let outcome = resolution(Some(authorization), api_token, secret, now);
            ||| outcome is Resolved
            ||| outcome == ResolutionView::Failed(Error::JWTValidationError)
            ||| outcome == ResolutionView::Failed(Error::AuthExpired)
        }),
{
}

/// What an `X-Api-Token` header can come to, where there is no
/// `Authorization` header: a lookup, or `InvalidToken` for a value that is
/// not the external form of a key.
pub proof fn lemma_api_token_outcomes(api_token: Seq<u8>, secret: Seq<u8>, now: i64)
    ensures
        ({
            let outcome = resolution(None, Some(api_token), secret, now);
            ||| outcome is Lookup
            ||| outcome == ResolutionView::Failed(Error::InvalidToken)
        }),
        resolution(None, Some(api_token), secret, now) is Lookup <==> valid_utf8(api_token)
            && parse(decode_utf8(api_token)) is Some,
{
}

/// The external form of a well-formed key, sent as an `X-Api-Token` header,
/// leads to the lookup of the digest of its long token: prefix and short
/// token have no part in what is looked up.
pub proof fn lemma_lookup_by_long_token_alone(key: KeyParts, secret: Seq<u8>, now: i64)
    requires
        well_formed(key),
    ensures
        resolution(None, Some(encode_utf8(external_form(key))), secret, now)
            == ResolutionView::Lookup(long_token_digest(key.long_token)),
{
    vstd::utf8::encode_utf8_valid_utf8(external_form(key));
    vstd::utf8::encode_utf8_decode_utf8(external_form(key));
    lemma_parse_of_external_form(key);
}

/// Calls `core::str::from_utf8`. Trusted: it succeeds exactly on bytes that
/// are UTF-8, and then gives the text that these bytes encode.
#[verifier::external_body]
pub(crate) fn utf8_text<'a>(bytes: &'a [u8]) -> (text: Option<&'a str>)
    ensures
        match text {
            Some(text) => valid_utf8(bytes@) && text@ == decode_utf8(bytes@),
            None => !valid_utf8(bytes@),
        },
{
    core::str::from_utf8(bytes).ok()
}

/// Finds the session token in the text of an `Authorization` header.
pub fn bearer_token(header: &str) -> (token: Option<&str>)
    ensures
        match bearer(header@) {
            Some(text) => token is Some && token->Some_0@ == text,
            None => token is None,
        },
{
    proof {
        reveal_strlit("Bearer ");
    }
    let len: usize = header.unicode_len();
    if len <= BEARER_LEN {
        return None;
    }
    let scheme = header.substring_char(0, BEARER_LEN);
    if !(String::from_str(scheme) == String::from_str("Bearer ")) {
        return None;
    }
    let rest = header.substring_char(BEARER_LEN, len);
    let scan = scan_delimiter(rest, LINE_FEED);
    proof {
        assert(header@.take(BEARER_LEN as int) =~= scheme@);
        assert(header@.skip(BEARER_LEN as int) =~= rest@);
        lemma_first_index(rest@, LINE_FEED);
    }
    if scan.first == 0 {
        return None;
    }
    let token = rest.substring_char(0, scan.first);
    proof {
        assert(rest@.take(scan.first as int) =~= token@);
    }
    Some(token)
}

/// The subject of the session token in an `Authorization` header, at `now`.
pub fn get_user_from_auth_header(header: &[u8], secret: &[u8], now: i64) -> (user_id: Result<
    String,
>)
    ensures
        match user_from_auth_header(header@, secret@, now) {
            Ok(subject) => user_id is Ok && user_id->Ok_0@ == subject,
            Err(error) => user_id == Err::<String, Error>(error),
        },
{
    let auth_header = match utf8_text(header) {
        Some(text) => text,
        None => {
            return Err(Error::InvalidAuthHeader);
        },
    };
    match bearer_token(auth_header) {
        Some(bearer_token) => match validate_jwt_at(bearer_token, secret, now) {
            Ok(claims) => Ok(claims.sub),
            Err(error) => Err(error),
        },
        None => Err(Error::InvalidAuthHeader),
    }
}

/// The digest to look up for the API key in an `X-Api-Token` header.
pub fn get_digest_from_token_header(header: &[u8]) -> (digest: Result<String>)
    ensures
        match digest_from_token_header(header@) {
            Ok(text) => digest is Ok && digest->Ok_0@ == text,
            Err(error) => digest == Err::<String, Error>(error),
        },
{
    let token = match utf8_text(header) {
        Some(text) => text,
        None => {
            return Err(Error::InvalidToken);
        },
    };
    match PrefixedApiKey::from_string(token) {
        Ok(pak) => Ok(pak.long_token_hashed()),
        Err(_) => Err(Error::InvalidToken),
    }
}

/// Looks at the headers of a request, at `now`, and settles what can be
/// settled without the key store.
pub fn resolve_at(
    auth_header: Option<&[u8]>,
    token_header: Option<&[u8]>,
    secret: &[u8],
    now: i64,
) -> (state: Resolution)
    ensures
        state@ == resolution(header_bytes(auth_header), header_bytes(token_header), secret@, now),
{
    match (auth_header, token_header) {
        (Some(auth_header), _) => match get_user_from_auth_header(auth_header, secret, now) {
            Ok(user_id) => Resolution::Resolved(Ctx::new(user_id)),
            Err(error) => Resolution::Failed(error),
        },
        (None, Some(token_header)) => match get_digest_from_token_header(token_header) {
            Ok(digest) => Resolution::Lookup(digest),
            Err(error) => Resolution::Failed(error),
        },
        (None, None) => Resolution::Failed(Error::MissingAuth),
    }
}

/// Looks at the headers of a request at the time on the system clock.
pub fn get_result_ctx(auth_header: Option<&[u8]>, token_header: Option<&[u8]>, secret: &[u8])
    -> (state: Resolution)
    ensures
        exists|now: i64|
            on_clock(now) && state@ == resolution(
                header_bytes(auth_header),
                header_bytes(token_header),
                secret@,
                now,
            ),
{
    let now = current_timestamp();
    resolve_at(auth_header, token_header, secret, now)
}

/// What the key store answered when asked for the key with some digest.
#[derive(Debug)]
pub enum KeyLookup {
    /// The record of the key with that digest.
    Found(Token),
    /// There is no key with that digest.
    NotFound,
    /// The key store could not be asked.
    Unavailable,
}

/// The owner that a lookup stands for: the owner of the key found. A key
/// that was not found fails with `InvalidToken`, as a failure of the caller. A
/// key store that could not be asked fails with `CtxCreationFail`, as a
/// failure of the service.
pub open spec fn owner_from_lookup(lookup: KeyLookup) -> core::result::Result<Seq<char>, Error> {
    match lookup {
        KeyLookup::Found(token) => Ok(token.user@),
        KeyLookup::NotFound => Err(Error::InvalidToken),
        KeyLookup::Unavailable => Err(Error::CtxCreationFail),
    }
}

/// The identifier of the owner of the key that was looked up.
pub fn validate_api_token(lookup: KeyLookup) -> (user_id: Result<String>)
    ensures
        match owner_from_lookup(lookup) {
            Ok(owner) => user_id is Ok && user_id->Ok_0@ == owner,
            Err(error) => user_id == Err::<String, Error>(error),
        },
{
    match lookup {
        KeyLookup::Found(token) => Ok(token.user),
        KeyLookup::NotFound => Err(Error::InvalidToken),
        KeyLookup::Unavailable => Err(Error::CtxCreationFail),
    }
}

/// Ends a resolution that asked for a lookup, with the answer of the key
/// store: the caller is the owner of the key found.
pub fn conclude_lookup(lookup: KeyLookup) -> (resolved: Result<Ctx>)
    ensures
        match owner_from_lookup(lookup) {
            Ok(owner) => resolved is Ok && resolved->Ok_0@ == owner,
            Err(error) => resolved is Err && resolved->Err_0 == error,
        },
{
    match validate_api_token(lookup) {
        Ok(user_id) => Ok(Ctx::new(user_id)),
        Err(error) => Err(error),
    }
}

/// What a handler gets when it asks for the caller's identity: the outcome
/// of the resolution that was kept with the request, or
/// `AuthFailCtxNotInRequestExt` where none was kept.
pub fn ctx_from_resolution(kept: Option<&Result<Ctx>>) -> (ctx: Result<Ctx>)
    ensures
        match kept {
            None => ctx is Err && ctx->Err_0 == Error::AuthFailCtxNotInRequestExt,
            Some(Ok(resolved)) => ctx is Ok && ctx->Ok_0@ == resolved@,
            Some(Err(error)) => ctx is Err && ctx->Err_0 == *error,
        },
{
    match kept {
        None => Err(Error::AuthFailCtxNotInRequestExt),
        Some(Ok(resolved)) => Ok(Ctx::new(String::from_str(resolved.user_id()))),
        Some(Err(error)) => Err(*error),
    }
}

} // verus!
