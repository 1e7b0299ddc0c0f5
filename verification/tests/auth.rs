use jsonwebtoken::{encode, Algorithm, EncodingKey, Header};
use linkstowr::auth::{
    accept, claims_from_object, claims_object, create_jwt, create_jwt_at, new_claims,
    validate_jwt, validate_jwt_at, Claims, MAX_TIMESTAMP, TOKEN_LIFETIME_SECS,
};
use linkstowr::error::Error;
use linkstowr::types::User;
use serde_json::{Number, Value};

type JsonObject = serde_json::Map<String, Value>;

const SECRET: &[u8] = b"a fixed secret";
const NOW: i64 = 1_700_000_000;

fn alice() -> User {
    User {
        id: "user:1".to_owned(),
        username: "alice".to_owned(),
    }
}

fn claims(exp: i64) -> Claims {
    Claims {
        sub: "user:1".to_owned(),
        username: "alice".to_owned(),
        exp,
    }
}

fn object(members: Vec<(&str, Value)>) -> JsonObject {
    let mut object = JsonObject::new();
    for (name, value) in members {
        object.insert(name.to_owned(), value);
    }
    object
}

fn text(value: &str) -> Value {
    Value::String(value.to_owned())
}

fn integer(value: i64) -> Value {
    Value::Number(Number::from(value))
}

fn signed(algorithm: Algorithm, claims: &JsonObject, secret: &[u8]) -> String {
    encode(
        &Header::new(algorithm),
        claims,
        &EncodingKey::from_secret(secret),
    )
    .unwrap()
}

fn failure(outcome: Result<Claims, Error>) -> Error {
    match outcome {
        Ok(claims) => panic!("accepted {claims:?}"),
        Err(error) => error,
    }
}

#[test]
fn token_lifetime_is_a_day() {
    assert_eq!(TOKEN_LIFETIME_SECS, 24 * 60 * 60);
}

#[test]
fn latest_clock_reading_is_the_end_of_the_last_day() {
    assert_eq!(
        MAX_TIMESTAMP,
        (i32::MAX as i64 - 719_163) * 86_400 + 86_399
    );
    assert!(new_claims(&alice(), MAX_TIMESTAMP).is_some());
    assert!(create_jwt_at(&alice(), SECRET, MAX_TIMESTAMP).is_ok());
}

#[test]
fn token_issued_now_expires_within_the_clock_range() {
    let token = create_jwt(&alice(), SECRET).unwrap();
    let claims = validate_jwt(&token, SECRET).unwrap();
    assert!(claims.exp >= TOKEN_LIFETIME_SECS);
    assert!(claims.exp <= MAX_TIMESTAMP + TOKEN_LIFETIME_SECS);
}

#[test]
fn secret_padded_with_zero_bytes_signs_alike() {
    let token = create_jwt_at(&alice(), SECRET, NOW).unwrap();
    let mut padded = SECRET.to_vec();
    padded.push(0);
    assert_eq!(create_jwt_at(&alice(), &padded, NOW).unwrap(), token);
    assert!(validate_jwt_at(&token, &padded, NOW).is_ok());
}

#[test]
fn new_claims_expire_a_day_later() {
    let claims = new_claims(&alice(), NOW).unwrap();
    assert_eq!(claims.sub, "user:1");
    assert_eq!(claims.username, "alice");
    assert_eq!(claims.exp, 1_700_086_400);
}

#[test]
fn new_claims_need_an_expiry_that_fits() {
    assert!(new_claims(&alice(), i64::MAX).is_none());
    assert!(new_claims(&alice(), i64::MAX - 86_399).is_none());
    assert_eq!(new_claims(&alice(), i64::MAX - 86_400).unwrap().exp, i64::MAX);
}

#[test]
fn token_verifies_right_after_issuance() {
    let token = create_jwt_at(&alice(), SECRET, NOW).unwrap();
    let claims = validate_jwt_at(&token, SECRET, NOW).unwrap();
    assert_eq!(claims.sub, "user:1");
    assert_eq!(claims.username, "alice");
    assert_eq!(claims.exp, NOW + 86_400);
}

#[test]
fn token_has_three_parts_and_an_hs512_header() {
    let token = create_jwt_at(&alice(), SECRET, NOW).unwrap();
    let parts: Vec<&str> = token.split('.').collect();
    assert_eq!(parts.len(), 3);
    assert_eq!(
        jsonwebtoken::decode_header(&token).unwrap().alg,
        Algorithm::HS512
    );
}

#[test]
fn issuing_is_deterministic() {
    assert_eq!(
        create_jwt_at(&alice(), SECRET, NOW).unwrap(),
        create_jwt_at(&alice(), SECRET, NOW).unwrap()
    );
    assert_ne!(
        create_jwt_at(&alice(), SECRET, NOW).unwrap(),
        create_jwt_at(&alice(), SECRET, NOW + 1).unwrap()
    );
}

#[test]
fn token_is_good_until_its_expiry() {
    let token = create_jwt_at(&alice(), SECRET, NOW).unwrap();
    assert!(validate_jwt_at(&token, SECRET, NOW + 86_399).is_ok());
    assert!(validate_jwt_at(&token, SECRET, NOW + 86_400).is_ok());
    assert!(validate_jwt_at(&token, SECRET, NOW - 5).is_ok());
}

#[test]
fn token_expires_after_a_day() {
    let token = create_jwt_at(&alice(), SECRET, NOW).unwrap();
    assert_eq!(
        failure(validate_jwt_at(&token, SECRET, NOW + 86_401)),
        Error::AuthExpired
    );
    assert_eq!(
        failure(validate_jwt_at(&token, SECRET, NOW + 3 * 86_400)),
        Error::AuthExpired
    );
}

#[test]
fn token_signed_with_another_secret_fails() {
    let token = create_jwt_at(&alice(), b"another secret", NOW).unwrap();
    assert_eq!(
        failure(validate_jwt_at(&token, SECRET, NOW)),
        Error::JWTValidationError
    );
}

#[test]
fn expired_token_with_another_secret_is_not_called_expired() {
    let token = create_jwt_at(&alice(), b"another secret", NOW).unwrap();
    assert_eq!(
        failure(validate_jwt_at(&token, SECRET, NOW + 2 * 86_400)),
        Error::JWTValidationError
    );
}

#[test]
fn tampered_token_fails() {
    let token = create_jwt_at(&alice(), SECRET, NOW).unwrap();
    let mut parts: Vec<String> = token.split('.').map(|part| part.to_owned()).collect();
    let other = create_jwt_at(
        &User {
            id: "user:2".to_owned(),
            username: "mallory".to_owned(),
        },
        SECRET,
        NOW,
    )
    .unwrap();
    parts[1] = other.split('.').nth(1).unwrap().to_owned();
    assert_eq!(
        failure(validate_jwt_at(&parts.join("."), SECRET, NOW)),
        Error::JWTValidationError
    );
}

#[test]
fn malformed_token_fails() {
    for token in ["", "bad.token.value", "a.b", "not a token", "a.b.c.d"] {
        assert_eq!(
            failure(validate_jwt_at(token, SECRET, NOW)),
            Error::JWTValidationError
        );
    }
}

#[test]
fn token_of_another_algorithm_fails() {
    let claims = claims_object(&claims(NOW + 86_400));
    for algorithm in [Algorithm::HS256, Algorithm::HS384] {
        let token = signed(algorithm, &claims, SECRET);
        assert_eq!(
            failure(validate_jwt_at(&token, SECRET, NOW)),
            Error::JWTValidationError
        );
    }
    let token = signed(Algorithm::HS512, &claims, SECRET);
    assert!(validate_jwt_at(&token, SECRET, NOW).is_ok());
}

#[test]
fn token_without_a_claim_fails() {
    let without_username = object(vec![("sub", text("user:1")), ("exp", integer(NOW + 60))]);
    let without_sub = object(vec![("username", text("alice")), ("exp", integer(NOW + 60))]);
    let without_exp = object(vec![("sub", text("user:1")), ("username", text("alice"))]);
    for claims in [without_username, without_sub, without_exp] {
        let token = signed(Algorithm::HS512, &claims, SECRET);
        assert_eq!(
            failure(validate_jwt_at(&token, SECRET, NOW)),
            Error::JWTValidationError
        );
    }
}

#[test]
fn token_with_a_claim_of_another_type_fails() {
    let numeric_sub = object(vec![
        ("sub", integer(1)),
        ("username", text("alice")),
        ("exp", integer(NOW + 60)),
    ]);
    let textual_exp = object(vec![
        ("sub", text("user:1")),
        ("username", text("alice")),
        ("exp", text("1700000060")),
    ]);
    let fractional_exp = object(vec![
        ("sub", text("user:1")),
        ("username", text("alice")),
        ("exp", Value::Number(Number::from_f64(1_700_000_060.5).unwrap())),
    ]);
    for claims in [numeric_sub, textual_exp, fractional_exp] {
        let token = signed(Algorithm::HS512, &claims, SECRET);
        assert_eq!(
            failure(validate_jwt_at(&token, SECRET, NOW)),
            Error::JWTValidationError
        );
    }
}

#[test]
fn token_with_further_claims_is_accepted() {
    let claims = object(vec![
        ("sub", text("user:1")),
        ("username", text("alice")),
        ("exp", integer(NOW + 60)),
        ("iat", integer(NOW)),
        ("role", text("admin")),
    ]);
    let token = signed(Algorithm::HS512, &claims, SECRET);
    let read = validate_jwt_at(&token, SECRET, NOW).unwrap();
    assert_eq!(read.sub, "user:1");
    assert_eq!(read.username, "alice");
    assert_eq!(read.exp, NOW + 60);
}

#[test]
fn token_whose_expiry_cannot_be_held_is_not_issued() {
    assert_eq!(
        create_jwt_at(&alice(), SECRET, i64::MAX).err(),
        Some(Error::JWTTokenCreationError)
    );
}

#[test]
fn token_from_before_the_epoch_never_verifies() {
    let token = create_jwt_at(&alice(), SECRET, -100_000).unwrap();
    assert_eq!(
        failure(validate_jwt_at(&token, SECRET, -100_000)),
        Error::JWTValidationError
    );
}

#[test]
fn token_issued_now_verifies_now() {
    let token = create_jwt(&alice(), SECRET).unwrap();
    let claims = validate_jwt(&token, SECRET).unwrap();
    assert_eq!(claims.sub, "user:1");
    assert_eq!(claims.username, "alice");
    assert!(claims.exp > 1_700_000_000);
    assert_eq!(
        failure(validate_jwt(&token, b"another secret")),
        Error::JWTValidationError
    );
}

#[test]
fn token_issued_long_ago_is_expired_now() {
    let token = create_jwt_at(&alice(), SECRET, NOW - 86_400).unwrap();
    assert_eq!(failure(validate_jwt(&token, SECRET)), Error::AuthExpired);
}

#[test]
fn claims_object_names_the_three_claims() {
    let object = claims_object(&claims(1_700_086_400));
    assert_eq!(object.len(), 3);
    assert_eq!(object.get("sub"), Some(&text("user:1")));
    assert_eq!(object.get("username"), Some(&text("alice")));
    assert_eq!(object.get("exp"), Some(&integer(1_700_086_400)));
}

#[test]
fn claims_are_read_back_from_their_object() {
    for exp in [0, 1_700_086_400, -5, i64::MAX, i64::MIN] {
        let read = claims_from_object(&claims_object(&claims(exp))).unwrap();
        assert_eq!(read.sub, "user:1");
        assert_eq!(read.username, "alice");
        assert_eq!(read.exp, exp);
    }
}

#[test]
fn claims_are_not_read_from_an_incomplete_object() {
    assert!(claims_from_object(&JsonObject::new()).is_none());
    assert!(claims_from_object(&object(vec![
        ("sub", text("user:1")),
        ("username", text("alice")),
    ]))
    .is_none());
    assert!(claims_from_object(&object(vec![
        ("sub", text("user:1")),
        ("username", Value::Null),
        ("exp", integer(5)),
    ]))
    .is_none());
    assert!(claims_from_object(&object(vec![
        ("sub", text("user:1")),
        ("username", text("alice")),
        ("exp", Value::Number(Number::from(u64::MAX))),
    ]))
    .is_none());
}

#[test]
fn accept_turns_down_missing_claims() {
    assert_eq!(failure(accept(None, NOW)), Error::JWTValidationError);
}

#[test]
fn accept_compares_the_expiry_with_the_clock() {
    assert_eq!(accept(Some(claims(NOW)), NOW).unwrap().exp, NOW);
    assert_eq!(accept(Some(claims(NOW + 1)), NOW).unwrap().sub, "user:1");
    assert_eq!(failure(accept(Some(claims(NOW - 1)), NOW)), Error::AuthExpired);
    assert_eq!(
        failure(accept(Some(claims(i64::MIN)), i64::MAX)),
        Error::AuthExpired
    );
}
