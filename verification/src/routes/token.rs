//! Issuing API keys.
//!
//! A new key is shown to its owner once, in its external form. What is stored
//! is a record with the digest of the long token and the short token; the
//! long token is in no field of it.

use crate::ctx::Ctx;
use crate::digest::DIGEST_LEN;
use crate::prefixed_api_key::{
    external_form, generated_by, lemma_parse_of_external_form, long_token_digest, parse,
    valid_config, well_formed, GeneratorConfig, KeyParts, PrefixedApiKey,
    PrefixedApiKeyController,
};
use crate::types::Token;
use vstd::prelude::*;

verus! {

/// The number of random bytes in the short token of a key of the service.
pub const SHORT_TOKEN_BYTES: usize = 8;

/// The number of random bytes in the long token of a key of the service.
pub const LONG_TOKEN_BYTES: usize = 24;

/// How the generator of the service's keys is set up: the prefix `lshelf`, a
/// short token of 8 bytes and a long token of 24.
pub open spec fn service_config() -> GeneratorConfig {
    GeneratorConfig {
        prefix: "lshelf"@,
        short_token_length: SHORT_TOKEN_BYTES,
        long_token_length: LONG_TOKEN_BYTES,
    }
}

/// The setup of the service's generator is valid.
pub proof fn lemma_service_config_valid()
    ensures
        valid_config(service_config()),
{
    reveal_strlit("lshelf");
}

/// The generator of the service's keys.
pub fn service_controller() -> (controller: PrefixedApiKeyController)
    ensures
        controller@ == service_config(),
{
    PrefixedApiKeyController::new(String::from_str("lshelf"), SHORT_TOKEN_BYTES, LONG_TOKEN_BYTES)
}

/// A new key: what its owner is shown and what is stored of it.
pub struct IssuedKey {
    /// The external form of the key, which holds the secret. It is shown to
    /// the owner and not kept.
    pub token: String,
    /// The record to store.
    pub record: Token,
}

/// `issued` is a key `key` of the service with the record that goes with it
/// for this owner and this name.
pub open spec fn is_issue_of(issued: IssuedKey, key: KeyParts, owner: Seq<char>, name: Seq<char>)
    -> bool {
    &&& generated_by(service_config(), key)
    &&& well_formed(key)
    &&& issued.token@ == external_form(key)
    &&& parse(issued.token@) == Some(key)
    &&& issued.record.token_hash@ == long_token_digest(key.long_token)
    &&& issued.record.token_hash@.len() == DIGEST_LEN
    &&& issued.record.short_token@ == key.short_token
    &&& issued.record.name@ == name
    &&& issued.record.user@ == owner
}

/// The record to store for `pak` and the digest of its long token, with the
/// owner and the name given. It takes the short token from the key and
/// nothing else.
pub fn token_record(pak: &PrefixedApiKey, hash: String, name: String, owner: &Ctx) -> (record:
    Token)
    ensures
        record.token_hash@ == hash@,
        record.name@ == name@,
        record.short_token@ == pak@.short_token,
        record.user@ == owner@,
{
    Token {
        token_hash: hash,
        name,
        short_token: String::from_str(pak.short_token()),
        user: String::from_str(owner.user_id()),
    }
}

/// What the owner is shown of `pak` and what is stored of it, given the
/// digest of its long token: the external form of the key, and the record
/// with the digest, the short token, the name and the owner.
pub fn issued_key(pak: &PrefixedApiKey, hash: String, name: String, owner: &Ctx) -> (issued:
    IssuedKey)
    ensures
        issued.token@ == external_form(pak@),
        issued.record.token_hash@ == hash@,
        issued.record.name@ == name@,
        issued.record.short_token@ == pak@.short_token,
        issued.record.user@ == owner@,
{
    let record = token_record(pak, hash, name, owner);
    IssuedKey { token: pak.to_string(), record }
}

/// Generates a key of the service for `owner`, under the name given.
///
/// The external form handed out parses back to the key, and the record holds
/// the digest under which a request with this key will look it up.
pub fn gen_token(owner: &Ctx, name: String) -> (issued: IssuedKey)
    ensures
        exists|key: KeyParts| is_issue_of(issued, key, owner@, name@),
{
    let controller = service_controller();
    let (pak, hash) = controller.generate_key_and_hash();
    proof {
        lemma_service_config_valid();
        lemma_parse_of_external_form(pak@);
    }
    let issued = issued_key(&pak, hash, name, owner);
    proof {
        assert(is_issue_of(issued, pak@, owner@, name@));
    }
    issued
}

} // verus!
