//! Signed session tokens.
//!
//! A token carries three claims: the subject's identifier, a display name and
//! an expiry. It is signed with HMAC-SHA512 and a secret that only the service
//! holds, and no other algorithm is accepted when it comes back. Whether a
//! token is still good is decided here, against a clock that the caller hands
//! in; the `jsonwebtoken` crate signs and checks signatures.

use crate::error::{Error, Result};
use crate::types::User;
use vstd::prelude::*;

verus! {

/// How long a token is good for, in seconds: 24 hours.
pub const TOKEN_LIFETIME_SECS: i64 = 86_400;

/// The latest time that the system clock is read as, in seconds since the
/// Unix epoch: the last second of the last day whose count from the year 1
/// fits an `i32`.
pub const MAX_TIMESTAMP: i64 = 185_480_451_503_999;

/// `now` is a time that the system clock can be read as.
pub open spec fn on_clock(now: i64) -> bool {
    0 <= now <= MAX_TIMESTAMP
}

/// The claims of a session token.
#[derive(Debug)]
pub struct Claims {
    /// The subject: the user's identifier.
    pub sub: String,
    /// The user's display name.
    pub username: String,
    /// When the token expires, in seconds since the Unix epoch.
    pub exp: i64,
}

/// The claims of a session token, as texts and a number.
pub struct ClaimsView {
    pub sub: Seq<char>,
    pub username: Seq<char>,
    pub exp: i64,
}

impl View for Claims {
    type V = ClaimsView;

    open spec fn view(&self) -> ClaimsView {
        ClaimsView { sub: self.sub@, username: self.username@, exp: self.exp }
    }
}

/// What a member of a JSON object holds, as far as claims are concerned.
pub enum JsonValue {
    /// A JSON string.
    Text(Seq<char>),
    /// A JSON number that is an integer within the range of `i64`.
    Integer(i64),
    /// Any other JSON value.
    Other,
}

/// Makes `serde_json::Value` known to the verifier, which sees nothing
/// inside a value of it.
#[verifier::external_type_specification]
#[verifier::external_body]
pub struct ExJsonValue(serde_json::Value);

/// Makes `serde_json::Map` known to the verifier, which sees nothing inside a
/// value of it. What an object holds is spoken of through [`members`].
#[verifier::external_type_specification]
#[verifier::external_body]
#[verifier::reject_recursive_types(K)]
#[verifier::reject_recursive_types(V)]
pub struct ExJsonMap<K, V>(serde_json::Map<K, V>);

/// The members of a JSON object, by name: a string that the object holds
/// under a name is `Text`, a number of which `serde_json::Value::as_i64`
/// gives an integer is `Integer` of that integer, and any other value is
/// `Other`.
pub uninterp spec fn members(object: serde_json::Map<String, serde_json::Value>) -> Map<
    Seq<char>,
    JsonValue,
>;

/// The token that `jsonwebtoken::encode` makes of a JSON object of claims,
/// with an HMAC-SHA512 header and signature under `secret`; `None` where it
/// fails.
pub uninterp spec fn hs512_token(claims: Map<Seq<char>, JsonValue>, secret: Seq<u8>) -> Option<
    Seq<char>,
>;

/// The claims that `jsonwebtoken::decode` reads from `token` when it accepts
/// HMAC-SHA512 alone, checks the signature under `secret`, asks for an `exp`
/// claim and leaves the comparison of that claim with the clock to the
/// caller; `None` where it rejects the token.
pub uninterp spec fn hs512_claims(token: Seq<char>, secret: Seq<u8>) -> Option<
    Map<Seq<char>, JsonValue>,
>;

/// The members of an empty JSON object.
pub open spec fn no_members() -> Map<Seq<char>, JsonValue> {
    Map::empty()
}

/// No member of the object is anything but a string or an integer.
pub open spec fn plain_members(fields: Map<Seq<char>, JsonValue>) -> bool {
    forall|name: Seq<char>| fields.dom().contains(name) ==> !(#[trigger] fields[name] is Other)
}

/// Calls `serde_json::Map::new`. Trusted: the object has no members.
#[verifier::external_body]
fn json_object() -> (object: serde_json::Map<String, serde_json::Value>)
    ensures
        members(object) == no_members(),
{
    serde_json::Map::new()
}

/// Calls `serde_json::Map::insert` with a string value. Trusted: the object
/// then holds that string under `name`, in place of what it held there, and
/// its other members are as before.
#[verifier::external_body]
fn json_put_text(
    object: &mut serde_json::Map<String, serde_json::Value>,
    name: &str,
    value: &str,
)
    ensures
        members(*final(object)) == members(*old(object)).insert(name@, JsonValue::Text(value@)),
{
    object.insert(name.to_owned(), serde_json::Value::String(value.to_owned()));
}

/// Calls `serde_json::Map::insert` with an integer value. Trusted: the object
/// then holds that integer under `name`, in place of what it held there, and
/// its other members are as before.
#[verifier::external_body]
fn json_put_integer(
    object: &mut serde_json::Map<String, serde_json::Value>,
    name: &str,
    value: i64,
)
    ensures
        members(*final(object)) == members(*old(object)).insert(name@, JsonValue::Integer(value)),
{
    object.insert(name.to_owned(), serde_json::Value::from(value));
}

/// Calls `serde_json::Map::get`. Trusted: the result is the string under
/// `name`, and `None` where the object has no such member or the member is no
/// string.
#[verifier::external_body]
fn json_text(object: &serde_json::Map<String, serde_json::Value>, name: &str) -> (text: Option<
    String,
>)
    ensures
        match text {
            Some(value) => members(*object).dom().contains(name@) && members(*object)[name@]
                == JsonValue::Text(value@),
            None => !(members(*object).dom().contains(name@) && members(*object)[name@] is Text),
        },
{
    match object.get(name) {
        Some(serde_json::Value::String(value)) => Some(value.clone()),
        _ => None,
    }
}

/// Calls `serde_json::Map::get` and `serde_json::Value::as_i64`. Trusted: the
/// result is the integer under `name`, and `None` where the object has no
/// such member or the member is no integer within the range of `i64`.
#[verifier::external_body]
fn json_integer(object: &serde_json::Map<String, serde_json::Value>, name: &str) -> (number:
    Option<i64>)
    ensures
        match number {
            Some(value) => members(*object).dom().contains(name@) && members(*object)[name@]
                == JsonValue::Integer(value),
            None => !(members(*object).dom().contains(name@) && members(*object)[name@]
                is Integer),
        },
{
    match object.get(name) {
        Some(value) => value.as_i64(),
        None => None,
    }
}

/// Calls `jsonwebtoken::encode` with a header for HMAC-SHA512 and a key made
/// of `secret` by `EncodingKey::from_secret`. Trusted: whether a token is
/// made, and which, depends on the members of the object and on the secret
/// alone, for an object that holds strings and integers only.
#[verifier::external_body]
fn sign_hs512(claims: &serde_json::Map<String, serde_json::Value>, secret: &[u8]) -> (signed:
    Option<String>)
    requires
        plain_members(members(*claims)),
    ensures
        match signed {
            Some(token) => hs512_token(members(*claims), secret@) == Some(token@),
            None => hs512_token(members(*claims), secret@) is None,
        },
{
    jsonwebtoken::encode(
        &jsonwebtoken::Header::new(jsonwebtoken::Algorithm::HS512),
        claims,
        &jsonwebtoken::EncodingKey::from_secret(secret),
    ).ok()
}

/// Calls `jsonwebtoken::decode` with a key made of `secret` by
/// `DecodingKey::from_secret` and a validation for HMAC-SHA512 whose check of
/// `exp` against the system clock is switched off. Trusted: whether the token
/// is accepted, and the claims read from it, depend on the token and the
/// secret alone. The call panics on a machine whose clock stands before 1970.
#[verifier::external_body]
fn verify_hs512(token: &str, secret: &[u8]) -> (verified: Option<
    serde_json::Map<String, serde_json::Value>,
>)
    ensures
        match verified {
            Some(claims) => hs512_claims(token@, secret@) == Some(members(claims)),
            None => hs512_claims(token@, secret@) is None,
        },
{
    let mut validation = jsonwebtoken::Validation::new(jsonwebtoken::Algorithm::HS512);
    validation.validate_exp = false;
    let key = jsonwebtoken::DecodingKey::from_secret(secret);
    jsonwebtoken::decode::<serde_json::Map<String, serde_json::Value>>(token, &key, &validation)
        .ok()
        .map(|data| data.claims)
}

/// Calls `chrono::Utc::now` and `timestamp` on its result: the seconds since
/// the Unix epoch on the system clock. Trusted: the result is not negative,
/// as the call panics on a machine whose clock stands before 1970, and it is
/// made of a count of days that fits an `i32` and of the seconds of one day.
/// Nothing else is known of it.
#[verifier::external_body]
pub(crate) fn current_timestamp() -> (now: i64)
    ensures
        on_clock(now),
{
    chrono::Utc::now().timestamp()
}

/// The expiry of a token issued at `now`: 24 hours later, if an `i64` can hold
/// that.
pub open spec fn expiry_after(now: i64) -> Option<i64> {
    if now + TOKEN_LIFETIME_SECS <= i64::MAX {
        Some((now + TOKEN_LIFETIME_SECS) as i64)
    } else {
        None
    }
}

/// The JSON object that carries `claims`: the subject under `sub`, the display
/// name under `username` and the expiry under `exp`.
pub open spec fn claim_members(claims: ClaimsView) -> Map<Seq<char>, JsonValue> {
    no_members().insert("sub"@, JsonValue::Text(claims.sub)).insert(
        "username"@,
        JsonValue::Text(claims.username),
    ).insert("exp"@, JsonValue::Integer(claims.exp))
}

/// The claims that a JSON object carries: it must hold a string under `sub`,
/// a string under `username` and an integer under `exp`. Other members do not
/// matter.
pub open spec fn claims_among(fields: Map<Seq<char>, JsonValue>) -> Option<ClaimsView> {
    if fields.dom().contains("sub"@) && fields["sub"@] is Text && fields.dom().contains(
        "username"@,
    ) && fields["username"@] is Text && fields.dom().contains("exp"@) && fields["exp"@]
        is Integer {
        Some(
            ClaimsView {
                sub: fields["sub"@]->Text_0,
                username: fields["username"@]->Text_0,
                exp: fields["exp"@]->Integer_0,
            },
        )
    } else {
        None
    }
}

/// What issuing a token for a subject at `now` comes to: the signed token
/// with the expiry 24 hours on, or `JWTTokenCreationError` where that expiry
/// cannot be held or signing fails.
pub open spec fn issued(sub: Seq<char>, username: Seq<char>, secret: Seq<u8>, now: i64)
    -> core::result::Result<Seq<char>, Error> {
    match expiry_after(now) {
        Some(exp) => match hs512_token(claim_members(ClaimsView { sub, username, exp }), secret) {
            Some(token) => Ok(token),
            None => Err(Error::JWTTokenCreationError),
        },
        None => Err(Error::JWTTokenCreationError),
    }
}

/// `outcome` is what issuing a token for this subject at `now` comes to.
pub open spec fn is_issued(
    outcome: Result<String>,
    sub: Seq<char>,
    username: Seq<char>,
    secret: Seq<u8>,
    now: i64,
) -> bool {
    match issued(sub, username, secret, now) {
        Ok(token) => outcome is Ok && outcome->Ok_0@ == token,
        Err(error) => outcome == Err::<String, Error>(error),
    }
}

/// The claims of `token`, if its signature under `secret` holds and it
/// carries all three claims.
pub open spec fn decoded(token: Seq<char>, secret: Seq<u8>) -> Option<ClaimsView> {
    match hs512_claims(token, secret) {
        Some(fields) => claims_among(fields),
        None => None,
    }
}

/// What becomes of the claims read from a token, at `now`: no claims fail with
/// `JWTValidationError`, claims whose expiry lies before `now` with
/// `AuthExpired`, and all others are accepted.
pub open spec fn accepted(claims: Option<ClaimsView>, now: i64) -> core::result::Result<
    ClaimsView,
    Error,
> {
    match claims {
        None => Err(Error::JWTValidationError),
        Some(claims) => if claims.exp < now {
            Err(Error::AuthExpired)
        } else {
            Ok(claims)
        },
    }
}

/// `outcome` is what validating `claims` at `now` comes to.
pub open spec fn is_accepted(outcome: Result<Claims>, claims: Option<ClaimsView>, now: i64)
    -> bool {
    match accepted(claims, now) {
        Ok(claims) => outcome is Ok && outcome->Ok_0@ == claims,
        Err(error) => outcome == Err::<Claims, Error>(error),
    }
}

/// The JSON object that carries claims holds strings and integers only, and
/// the claims read from it are those it was made of.
pub proof fn lemma_claims_round_trip(claims: ClaimsView)
    ensures
        plain_members(claim_members(claims)),
        claims_among(claim_members(claims)) == Some(claims),
{
    reveal_strlit("sub");
    reveal_strlit("username");
    reveal_strlit("exp");
    assert("sub"@ != "username"@) by {
        assert("sub"@.len() != "username"@.len());
    }
    assert("sub"@ != "exp"@) by {
        assert("sub"@[0] != "exp"@[0]);
    }
    assert("username"@ != "exp"@) by {
        assert("username"@.len() != "exp"@.len());
    }
}

/// At a time that the system clock can be read as, the expiry of a token can
/// be held, so issuing fails only where signing does.
pub proof fn lemma_issued_on_clock(sub: Seq<char>, username: Seq<char>, secret: Seq<u8>, now: i64)
    requires
        on_clock(now),
    ensures
        expiry_after(now) == Some((now + TOKEN_LIFETIME_SECS) as i64),
        issued(sub, username, secret, now) is Err <==> hs512_token(
            claim_members(ClaimsView { sub, username, exp: (now + TOKEN_LIFETIME_SECS) as i64 }),
            secret,
        ) is None,
{
}

/// A token that decodes to no claims under the secret fails with
/// `JWTValidationError` at every time: it is never accepted and never called
/// expired.
pub proof fn lemma_undecodable_token_fails(token: Seq<char>, secret: Seq<u8>, now: i64)
    requires
        decoded(token, secret) is None,
    ensures
        accepted(decoded(token, secret), now) == Err::<ClaimsView, Error>(
            Error::JWTValidationError,
        ),
{
}

/// Claims are accepted until their expiry, that second still counted, and
/// fail with `AuthExpired` from then on.
pub proof fn lemma_accepted_until_expiry(claims: ClaimsView, now: i64)
    ensures
        now <= claims.exp ==> accepted(Some(claims), now) == Ok::<ClaimsView, Error>(claims),
        now > claims.exp ==> accepted(Some(claims), now) == Err::<ClaimsView, Error>(
            Error::AuthExpired,
        ),
{
}

/// The claims of a token issued at `issued_at` are accepted at once and for
/// 24 hours, and fail with `AuthExpired` once the clock has gone further.
pub proof fn lemma_token_lifetime(claims: ClaimsView, issued_at: i64, now: i64)
    requires
        expiry_after(issued_at) == Some(claims.exp),
    ensures
        issued_at <= now <= issued_at + TOKEN_LIFETIME_SECS ==> accepted(Some(claims), now)
            == Ok::<ClaimsView, Error>(claims),
        now > issued_at + TOKEN_LIFETIME_SECS ==> accepted(Some(claims), now) == Err::<
            ClaimsView,
            Error,
        >(Error::AuthExpired),
{
}

/// The claims for `user` in a token issued at `now`, which expire 24 hours
/// later; `None` where an `i64` cannot hold that expiry.
pub fn new_claims(user: &User, now: i64) -> (claims: Option<Claims>)
    ensures
        match expiry_after(now) {
            Some(exp) => claims is Some && claims->Some_0@ == (ClaimsView {
                sub: user.id@,
                username: user.username@,
                exp,
            }),
            None => claims is None,
        },
{
    match now.checked_add(TOKEN_LIFETIME_SECS) {
        Some(exp) => Some(Claims { sub: user.id.clone(), username: user.username.clone(), exp }),
        None => None,
    }
}

/// The JSON object that carries `claims`.
pub fn claims_object(claims: &Claims) -> (object: serde_json::Map<String, serde_json::Value>)
    ensures
        members(object) == claim_members(claims@),
        plain_members(members(object)),
{
    let mut object = json_object();
    json_put_text(&mut object, "sub", claims.sub.as_str());
    json_put_text(&mut object, "username", claims.username.as_str());
    json_put_integer(&mut object, "exp", claims.exp);
    object
}

/// Reads the claims that a JSON object carries.
pub fn claims_from_object(object: &serde_json::Map<String, serde_json::Value>) -> (claims:
    Option<Claims>)
    ensures
        match claims_among(members(*object)) {
            Some(view) => claims is Some && claims->Some_0@ == view,
            None => claims is None,
        },
{
    let sub = match json_text(object, "sub") {
        Some(sub) => sub,
        None => {
            return None;
        },
    };
    let username = match json_text(object, "username") {
        Some(username) => username,
        None => {
            return None;
        },
    };
    match json_integer(object, "exp") {
        Some(exp) => Some(Claims { sub, username, exp }),
        None => None,
    }
}

/// Decides on the claims read from a token, at `now`: no claims fail with
/// `JWTValidationError`, claims whose expiry lies before `now` with
/// `AuthExpired`, and all others are handed back.
pub fn accept(claims: Option<Claims>, now: i64) -> (outcome: Result<Claims>)
    ensures
        is_accepted(
            outcome,
            match claims {
                Some(claims) => Some(claims@),
                None => None,
            },
            now,
        ),
{
    match claims {
        None => Err(Error::JWTValidationError),
        Some(claims) => {
            if claims.exp < now {
                Err(Error::AuthExpired)
            } else {
                Ok(claims)
            }
        },
    }
}

/// Issues a token for `user` at `now`, signed under `secret`. It expires 24
/// hours after `now`.
pub fn create_jwt_at(user: &User, secret: &[u8], now: i64) -> (outcome: Result<String>)
    ensures
        is_issued(outcome, user.id@, user.username@, secret@, now),
{
    let claims = match new_claims(user, now) {
        Some(claims) => claims,
        None => {
            return Err(Error::JWTTokenCreationError);
        },
    };
    let object = claims_object(&claims);
    match sign_hs512(&object, secret) {
        Some(token) => Ok(token),
        None => Err(Error::JWTTokenCreationError),
    }
}

/// Issues a token for `user` at the time on the system clock, signed under
/// `secret`. At such a time the expiry can always be held, so the token is
/// issued unless signing fails.
pub fn create_jwt(user: &User, secret: &[u8]) -> (outcome: Result<String>)
    ensures
        exists|now: i64|
            on_clock(now) && is_issued(outcome, user.id@, user.username@, secret@, now),
{
    let now = current_timestamp();
    create_jwt_at(user, secret, now)
}

/// Validates `jwt` at `now`: its signature under `secret`, its three claims,
/// and then, apart from these, its expiry.
pub fn validate_jwt_at(jwt: &str, secret: &[u8], now: i64) -> (outcome: Result<Claims>)
    ensures
        is_accepted(outcome, decoded(jwt@, secret@), now),
{
    let claims = match verify_hs512(jwt, secret) {
        Some(object) => claims_from_object(&object),
        None => None,
    };
    accept(claims, now)
}

/// Validates `jwt` at the time on the system clock.
pub fn validate_jwt(jwt: &str, secret: &[u8]) -> (outcome: Result<Claims>)
    ensures
        exists|now: i64| on_clock(now) && is_accepted(outcome, decoded(jwt@, secret@), now),
{
    let now = current_timestamp();
    validate_jwt_at(jwt, secret, now)
}

} // verus!
