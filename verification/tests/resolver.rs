use linkstowr::auth::create_jwt_at;
use linkstowr::ctx::Ctx;
use linkstowr::error::Error;
use linkstowr::middlewares::auth::{
    bearer_token, conclude_lookup, ctx_from_resolution, get_digest_from_token_header,
    get_result_ctx, get_user_from_auth_header, resolve_at, validate_api_token, KeyLookup,
    Resolution,
};
use linkstowr::prefixed_api_key::PrefixedApiKey;
use linkstowr::routes::token::{gen_token, issued_key, service_controller, token_record};
use linkstowr::types::{Token, User};

const SECRET: &[u8] = b"a fixed secret";
const NOW: i64 = 1_700_000_000;

fn session_token(id: &str) -> String {
    let user = User {
        id: id.to_owned(),
        username: "alice".to_owned(),
    };
    create_jwt_at(&user, SECRET, NOW).unwrap()
}

fn bearer(token: &str) -> Vec<u8> {
    format!("Bearer {token}").into_bytes()
}

fn failure_of(state: Resolution) -> Error {
    match state {
        Resolution::Failed(error) => error,
        other => panic!("resolution went on: {other:?}"),
    }
}

fn identity_of(state: Resolution) -> String {
    match state {
        Resolution::Resolved(ctx) => ctx.user_id().to_owned(),
        other => panic!("no identity: {other:?}"),
    }
}

fn digest_of(state: Resolution) -> String {
    match state {
        Resolution::Lookup(digest) => digest,
        other => panic!("no lookup: {other:?}"),
    }
}

fn find(store: &[Token], digest: &str) -> KeyLookup {
    match store.iter().find(|record| record.token_hash == digest) {
        Some(record) => KeyLookup::Found(record.clone()),
        None => KeyLookup::NotFound,
    }
}

fn resolve_with_store(store: &[Token], api_token: &str) -> Result<Ctx, Error> {
    match resolve_at(None, Some(api_token.as_bytes()), SECRET, NOW) {
        Resolution::Resolved(ctx) => Ok(ctx),
        Resolution::Failed(error) => Err(error),
        Resolution::Lookup(digest) => conclude_lookup(find(store, &digest)),
    }
}

#[test]
fn bearer_token_is_what_follows_the_scheme() {
    assert_eq!(bearer_token("Bearer abc.def.ghi"), Some("abc.def.ghi"));
    assert_eq!(bearer_token("Bearer x"), Some("x"));
    assert_eq!(bearer_token("Bearer  spaced out "), Some(" spaced out "));
    assert_eq!(bearer_token("Bearer Bearer x"), Some("Bearer x"));
    assert_eq!(bearer_token("Bearer é"), Some("é"));
}

#[test]
fn bearer_token_ends_at_a_line_feed() {
    assert_eq!(bearer_token("Bearer abc\ndef"), Some("abc"));
    assert_eq!(bearer_token("Bearer abc\r\ndef"), Some("abc\r"));
    assert_eq!(bearer_token("Bearer \nabc"), None);
}

#[test]
fn bearer_token_needs_the_scheme_at_the_start() {
    assert_eq!(bearer_token("Basic xyz"), None);
    assert_eq!(bearer_token("bearer abc"), None);
    assert_eq!(bearer_token("BEARER abc"), None);
    assert_eq!(bearer_token(" Bearer abc"), None);
    assert_eq!(bearer_token("Bearerabc"), None);
    assert_eq!(bearer_token("Bearer"), None);
    assert_eq!(bearer_token("Bearer "), None);
    assert_eq!(bearer_token(""), None);
    assert_eq!(bearer_token("Token Bearer abc"), None);
}

#[test]
fn bad_bearer_token_is_a_validation_failure() {
    let state = resolve_at(Some(b"Bearer bad.token.value"), None, SECRET, NOW);
    assert_eq!(failure_of(state), Error::JWTValidationError);
    assert_eq!(
        Error::JWTValidationError.client_status_and_error().0,
        400
    );
}

#[test]
fn basic_authorization_is_an_invalid_header() {
    let state = resolve_at(Some(b"Basic xyz"), None, SECRET, NOW);
    assert_eq!(failure_of(state), Error::InvalidAuthHeader);
}

#[test]
fn no_headers_is_missing_auth() {
    let state = resolve_at(None, None, SECRET, NOW);
    assert_eq!(failure_of(state), Error::MissingAuth);
    assert_eq!(failure_of(get_result_ctx(None, None, SECRET)), Error::MissingAuth);
}

#[test]
fn authorization_that_is_not_utf8_is_an_invalid_header() {
    for header in [&b"Bearer \xff\xfe"[..], &[0x42, 0xff][..], &b"\xc3\x28"[..]] {
        let state = resolve_at(Some(header), None, SECRET, NOW);
        assert_eq!(failure_of(state), Error::InvalidAuthHeader);
        assert_eq!(
            get_user_from_auth_header(header, SECRET, NOW),
            Err(Error::InvalidAuthHeader)
        );
    }
}

#[test]
fn api_key_that_is_not_utf8_is_an_invalid_token() {
    let state = resolve_at(None, Some(b"lshelf_\xc3\x28_long"), SECRET, NOW);
    assert_eq!(failure_of(state), Error::InvalidToken);
    assert_eq!(
        get_digest_from_token_header(b"lshelf_short_\xff"),
        Err(Error::InvalidToken)
    );
}

#[test]
fn missing_auth_is_kept_for_requests_without_headers() {
    let headers: [&[u8]; 5] = [b"", b"Basic xyz", b"\xff", b"Bearer bad.token.value", b"a_b"];
    for header in headers {
        assert_ne!(
            failure_of(resolve_at(Some(header), None, SECRET, NOW)),
            Error::MissingAuth
        );
        assert_ne!(
            failure_of(resolve_at(None, Some(header), SECRET, NOW)),
            Error::MissingAuth
        );
    }
}

#[test]
fn session_token_resolves_to_its_subject() {
    let header = bearer(&session_token("user:1"));
    let state = resolve_at(Some(&header), None, SECRET, NOW + 10);
    assert_eq!(identity_of(state), "user:1");
}

#[test]
fn session_token_resolves_on_the_system_clock() {
    let user = User {
        id: "user:7".to_owned(),
        username: "bob".to_owned(),
    };
    let token = linkstowr::auth::create_jwt(&user, SECRET).unwrap();
    let state = get_result_ctx(Some(&bearer(&token)), None, SECRET);
    assert_eq!(identity_of(state), "user:7");
}

#[test]
fn expired_session_token_fails_as_expired() {
    let header = bearer(&session_token("user:1"));
    let state = resolve_at(Some(&header), None, SECRET, NOW + 86_401);
    assert_eq!(failure_of(state), Error::AuthExpired);
    assert_eq!(Error::AuthExpired.client_status_and_error().0, 401);
}

#[test]
fn session_token_wins_over_api_key() {
    let header = bearer(&session_token("user:1"));
    let key = b"lshelf_XXXXXX_XXXXXXXXXXX";
    let state = resolve_at(Some(&header), Some(key), SECRET, NOW);
    assert_eq!(identity_of(state), "user:1");
}

#[test]
fn bad_session_token_is_not_covered_by_an_api_key() {
    let key = b"lshelf_XXXXXX_XXXXXXXXXXX";
    let expired = bearer(&session_token("user:1"));
    assert_eq!(
        failure_of(resolve_at(Some(&expired), Some(key), SECRET, NOW + 86_401)),
        Error::AuthExpired
    );
    assert_eq!(
        failure_of(resolve_at(Some(b"Basic xyz"), Some(key), SECRET, NOW)),
        Error::InvalidAuthHeader
    );
    assert_eq!(
        failure_of(resolve_at(Some(b"Bearer bad.token.value"), Some(key), SECRET, NOW)),
        Error::JWTValidationError
    );
}

#[test]
fn api_key_asks_for_the_digest_of_its_long_token() {
    let state = resolve_at(None, Some(b"lshelf_short_abc"), SECRET, NOW);
    assert_eq!(
        digest_of(state),
        "ba7816bf8f01cfea414140de5dae2223b00361a396177a9cb410ff61f20015ad"
    );
    assert_eq!(
        get_digest_from_token_header(b"other_else_abc"),
        Ok("ba7816bf8f01cfea414140de5dae2223b00361a396177a9cb410ff61f20015ad".to_owned())
    );
}

#[test]
fn malformed_api_key_is_an_invalid_token() {
    for key in ["", "lshelf", "lshelf_short", "a_b_c_d", "lshelf__long", "_a_b"] {
        let state = resolve_at(None, Some(key.as_bytes()), SECRET, NOW);
        assert_eq!(failure_of(state), Error::InvalidToken);
    }
}

#[test]
fn user_from_auth_header_gives_the_subject() {
    let header = bearer(&session_token("user:42"));
    assert_eq!(
        get_user_from_auth_header(&header, SECRET, NOW),
        Ok("user:42".to_owned())
    );
    assert_eq!(
        get_user_from_auth_header(&header, b"another secret", NOW),
        Err(Error::JWTValidationError)
    );
    assert_eq!(
        get_user_from_auth_header(b"Digest abc", SECRET, NOW),
        Err(Error::InvalidAuthHeader)
    );
}

#[test]
fn generated_key_resolves_to_its_owner() {
    let owner = Ctx::new("user:abc123".to_owned());
    let issued = gen_token(&owner, "laptop".to_owned());
    let other = gen_token(&Ctx::new("user:other".to_owned()), "phone".to_owned());
    let store = vec![other.record.clone(), issued.record.clone()];

    let resolved = resolve_with_store(&store, &issued.token).ok().unwrap();
    assert_eq!(resolved.user_id(), "user:abc123");
    let resolved = resolve_with_store(&store, &other.token).ok().unwrap();
    assert_eq!(resolved.user_id(), "user:other");
}

#[test]
fn stored_record_does_not_hold_the_long_token() {
    let owner = Ctx::new("user:abc123".to_owned());
    let issued = gen_token(&owner, "laptop".to_owned());
    let key = PrefixedApiKey::from_string(&issued.token).ok().unwrap();
    let record = &issued.record;
    assert_eq!(key.prefixed(), "lshelf");
    assert_eq!(record.token_hash, key.long_token_hashed());
    assert_eq!(record.short_token, key.short_token());
    assert_eq!(record.name, "laptop");
    assert_eq!(record.user, "user:abc123");
    for field in [&record.token_hash, &record.name, &record.short_token, &record.user] {
        assert!(!field.contains(key.long_token()));
    }
}

#[test]
fn key_that_was_never_stored_is_an_invalid_token() {
    let owner = Ctx::new("user:abc123".to_owned());
    let stored = gen_token(&owner, "laptop".to_owned());
    let never_stored = gen_token(&owner, "phone".to_owned());
    let store = vec![stored.record.clone()];

    assert_eq!(
        resolve_with_store(&store, &never_stored.token).err(),
        Some(Error::InvalidToken)
    );
    assert_eq!(
        resolve_with_store(&store, "lshelf_XXXXXX_XXXXXXXXXXX").err(),
        Some(Error::InvalidToken)
    );
    assert_eq!(
        resolve_with_store(&[], &stored.token).err(),
        Some(Error::InvalidToken)
    );
}

#[test]
fn matching_prefix_and_short_token_do_not_help() {
    let owner = Ctx::new("user:abc123".to_owned());
    let stored = gen_token(&owner, "laptop".to_owned());
    let store = vec![stored.record.clone()];
    let key = PrefixedApiKey::from_string(&stored.token).ok().unwrap();

    let forged = format!("{}_{}_{}", key.prefixed(), key.short_token(), "1111111111");
    assert_eq!(
        resolve_with_store(&store, &forged).err(),
        Some(Error::InvalidToken)
    );
    let unrelated = format!("zzz_yyy_{}", key.long_token());
    assert_eq!(
        resolve_with_store(&store, &unrelated).ok().unwrap().user_id(),
        "user:abc123"
    );
}

#[test]
fn lookup_that_found_nothing_is_an_invalid_token() {
    assert_eq!(
        validate_api_token(KeyLookup::NotFound),
        Err(Error::InvalidToken)
    );
    assert_eq!(
        conclude_lookup(KeyLookup::NotFound).err(),
        Some(Error::InvalidToken)
    );
    assert_eq!(Error::InvalidToken.client_status_and_error().0, 400);
}

#[test]
fn key_store_that_cannot_be_asked_is_a_failure_of_the_service() {
    assert_eq!(
        validate_api_token(KeyLookup::Unavailable),
        Err(Error::CtxCreationFail)
    );
    assert_eq!(
        conclude_lookup(KeyLookup::Unavailable).err(),
        Some(Error::CtxCreationFail)
    );
    assert_eq!(Error::CtxCreationFail.client_status_and_error().0, 500);
}

#[test]
fn lookup_that_found_a_key_gives_its_owner() {
    let key = service_controller().generate_key();
    let record = token_record(
        &key,
        key.long_token_hashed(),
        "laptop".to_owned(),
        &Ctx::new("user:abc123".to_owned()),
    );
    assert_eq!(
        validate_api_token(KeyLookup::Found(record.clone())),
        Ok("user:abc123".to_owned())
    );
    assert_eq!(
        conclude_lookup(KeyLookup::Found(record)).ok().unwrap().user_id(),
        "user:abc123"
    );
}

#[test]
fn issued_key_shows_the_key_and_stores_its_digest() {
    let key = PrefixedApiKey::new("lshelf".to_owned(), "short".to_owned(), "abc".to_owned());
    let owner = Ctx::new("user:abc123".to_owned());
    let issued = issued_key(&key, key.long_token_hashed(), "laptop".to_owned(), &owner);
    assert_eq!(issued.token, "lshelf_short_abc");
    assert_eq!(
        issued.record.token_hash,
        "ba7816bf8f01cfea414140de5dae2223b00361a396177a9cb410ff61f20015ad"
    );
    assert_eq!(issued.record.short_token, "short");
    assert_eq!(issued.record.name, "laptop");
    assert_eq!(issued.record.user, "user:abc123");
}

#[test]
fn service_keys_have_the_service_prefix() {
    let key = service_controller().generate_key();
    assert_eq!(key.prefixed(), "lshelf");
    assert!(key.short_token().len() >= 8);
    assert!(key.long_token().len() >= 24);
}

#[test]
fn identity_without_resolution_is_its_own_failure() {
    assert_eq!(
        ctx_from_resolution(None).err(),
        Some(Error::AuthFailCtxNotInRequestExt)
    );
    assert_ne!(Error::AuthFailCtxNotInRequestExt, Error::MissingAuth);
}

#[test]
fn identity_is_the_kept_resolution() {
    let kept: Result<Ctx, Error> = Ok(Ctx::new("user:abc123".to_owned()));
    assert_eq!(
        ctx_from_resolution(Some(&kept)).ok().unwrap().user_id(),
        "user:abc123"
    );
    for error in [Error::MissingAuth, Error::AuthExpired, Error::InvalidToken] {
        let kept: Result<Ctx, Error> = Err(error);
        assert_eq!(ctx_from_resolution(Some(&kept)).err(), Some(error));
    }
}
