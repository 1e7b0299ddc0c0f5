//! Prefixed API keys: `prefix_shortToken_longToken`.
//!
//! The prefix names the product, the short token identifies the key and may be
//! shown and logged, and the long token is the secret. Only the digest of the
//! long token is ever stored; the long token itself leaves this module once,
//! with the key that [`PrefixedApiKeyController::generate_key`] returns.

use crate::digest::{digest, digest_of, DIGEST_LEN};
use crate::text::{
    decimal, decimal_string, first_index, free_of, lemma_first_index, lemma_occurs_in_joined,
    lemma_occurs_in_part, lemma_split_len, lemma_split_of_joined, lemma_split_parts_free,
    lemma_split_three, occurs_at, occurs_in, scan_delimiter, second_index, split,
};
use vstd::prelude::*;

verus! {

/// The character between the parts of a key.
pub const KEY_DELIMITER: char = '_';

/// The number of parts of a key.
pub const KEY_PARTS: usize = 3;

/// Why a text is not a key.
#[derive(Clone, Copy, Debug, PartialEq, Eq, Structural)]
pub enum PrefixedApiKeyError {
    /// The text does not consist of three non-empty parts. The number is that
    /// of the parts the delimiter cuts the text into, empty ones counted.
    WrongNumberOfParts(usize),
}

/// How a failure is written in diagnostics: the name of its kind, and in
/// brackets the number of parts that were found.
pub open spec fn error_text(error: PrefixedApiKeyError) -> Seq<char> {
    match error {
        PrefixedApiKeyError::WrongNumberOfParts(parts) => "WrongNumberOfParts("@ + decimal(
            parts as nat,
        ) + ")"@,
    }
}

impl PrefixedApiKeyError {
    /// Writes the failure for diagnostics.
    pub fn to_string(&self) -> (text: String)
        ensures
            text@ == error_text(*self),
    {
        match self {
            PrefixedApiKeyError::WrongNumberOfParts(parts) => {
                let mut text = String::from_str("WrongNumberOfParts(");
                text.append(decimal_string(*parts).as_str());
                text.append(")");
                text
            },
        }
    }
}

/// The three parts of a key, as texts.
pub struct KeyParts {
    pub prefix: Seq<char>,
    pub short_token: Seq<char>,
    pub long_token: Seq<char>,
}

/// No part is empty and none holds the delimiter: the key can be told from
/// its external form.
pub open spec fn well_formed(parts: KeyParts) -> bool {
    &&& parts.prefix.len() > 0
    &&& parts.short_token.len() > 0
    &&& parts.long_token.len() > 0
    &&& free_of(parts.prefix, KEY_DELIMITER)
    &&& free_of(parts.short_token, KEY_DELIMITER)
    &&& free_of(parts.long_token, KEY_DELIMITER)
}

/// The external form of a key: its parts joined by the delimiter.
pub open spec fn external_form(parts: KeyParts) -> Seq<char> {
    parts.prefix + seq![KEY_DELIMITER] + parts.short_token + seq![KEY_DELIMITER]
        + parts.long_token
}

/// The key that `text` is the external form of, if it is one: the delimiter
/// must cut `text` into exactly three parts, none of them empty.
pub open spec fn parse(text: Seq<char>) -> Option<KeyParts> {
    let parts = split(text, KEY_DELIMITER);
    if parts.len() == KEY_PARTS && parts[0].len() > 0 && parts[1].len() > 0 && parts[2].len()
        > 0 {
        Some(KeyParts { prefix: parts[0], short_token: parts[1], long_token: parts[2] })
    } else {
        None
    }
}

/// The number of parts that the delimiter cuts `text` into, as far as a
/// `usize` can hold it.
pub open spec fn part_count(text: Seq<char>) -> usize {
    let parts = split(text, KEY_DELIMITER).len();
    if parts <= usize::MAX {
        parts as usize
    } else {
        usize::MAX
    }
}

/// The quotation mark that stands around each part of a key where the key
/// is shown.
pub const QUOTE: char = '"';

/// The longest run of characters of the Bitcoin alphabet in the fixed text
/// around the parts of a key that is shown: the 14 letters of the type's name.
pub const LONGEST_FIXED_RUN: usize = 14;

/// What stands before the prefix where a key is shown.
pub open spec fn redacted_head() -> Seq<char> {
    "PrefixedApiKey { prefix: \""@
}

/// What stands between the prefix and the short token where a key is shown.
pub open spec fn redacted_middle() -> Seq<char> {
    "\", short_token: \""@
}

/// What stands behind the short token where a key is shown: the mask in place
/// of the long token.
pub open spec fn redacted_tail() -> Seq<char> {
    "\", long_token: \"***\" }"@
}

/// How a key is shown in logs and diagnostics: prefix and short token as they
/// are, and a fixed mask in place of the long token, which is no argument here.
pub open spec fn redacted_form(prefix: Seq<char>, short_token: Seq<char>) -> Seq<char> {
    redacted_head() + prefix + redacted_middle() + short_token + redacted_tail()
}

/// The digest under which a key with this long token is stored and found: the
/// digest of the token's UTF-8 bytes.
pub open spec fn long_token_digest(long_token: Seq<char>) -> Seq<char> {
    digest_of(vstd::utf8::encode_utf8(long_token))
}

/// The external form of a well-formed key parses to that key.
pub proof fn lemma_parse_of_external_form(parts: KeyParts)
    requires
        well_formed(parts),
    ensures
        parse(external_form(parts)) == Some(parts),
{
    lemma_split_of_joined(parts.prefix, parts.short_token, parts.long_token, KEY_DELIMITER);
}

/// A text that parses is the external form of the key it parses to, and that
/// key is well formed.
pub proof fn lemma_external_form_of_parsed(text: Seq<char>)
    requires
        parse(text) is Some,
    ensures
        well_formed(parse(text)->Some_0),
        external_form(parse(text)->Some_0) == text,
{
    let parts = split(text, KEY_DELIMITER);
    lemma_split_len(text, KEY_DELIMITER);
    lemma_split_three(text, KEY_DELIMITER);
    lemma_split_parts_free(text, KEY_DELIMITER);
    assert(free_of(parts[0], KEY_DELIMITER));
    assert(free_of(parts[1], KEY_DELIMITER));
    assert(free_of(parts[2], KEY_DELIMITER));
    let first = first_index(text, KEY_DELIMITER);
    let second = second_index(text, KEY_DELIMITER);
    lemma_first_index(text, KEY_DELIMITER);
    lemma_first_index(text.skip(first + 1), KEY_DELIMITER);
    assert(text[first] == KEY_DELIMITER);
    assert(text[second] == text.skip(first + 1)[second - first - 1]);
    assert(external_form(parse(text)->Some_0) =~= text);
}

/// Two well-formed keys with the same external form are the same key.
pub proof fn lemma_external_form_injective(left: KeyParts, right: KeyParts)
    requires
        well_formed(left),
        well_formed(right),
        external_form(left) == external_form(right),
    ensures
        left == right,
{
    lemma_parse_of_external_form(left);
    lemma_parse_of_external_form(right);
}

/// The redacted form of a key is the same whatever its long token is.
pub proof fn lemma_redacted_form_hides_long_token(left: PrefixedApiKey, right: PrefixedApiKey)
    requires
        left@.prefix == right@.prefix,
        left@.short_token == right@.short_token,
    ensures
        redacted_form(left@.prefix, left@.short_token) == redacted_form(
            right@.prefix,
            right@.short_token,
        ),
{
}

/// A long token without a quotation mark occurs in the redacted form of a
/// key exactly when it occurs in the prefix, in the short token or in the
/// fixed text around them. The redacted form holds it in no other way.
pub proof fn lemma_long_token_in_redacted_form(
    long_token: Seq<char>,
    prefix: Seq<char>,
    short_token: Seq<char>,
)
    requires
        free_of(long_token, QUOTE),
    ensures
        occurs_in(long_token, redacted_form(prefix, short_token)) <==> {
            ||| occurs_in(long_token, prefix)
            ||| occurs_in(long_token, short_token)
            ||| occurs_in(long_token, redacted_head())
            ||| occurs_in(long_token, redacted_middle())
            ||| occurs_in(long_token, redacted_tail())
        },
{
    reveal_strlit("PrefixedApiKey { prefix: \"");
    reveal_strlit("\", short_token: \"");
    reveal_strlit("\", long_token: \"***\" }");
    let head = redacted_head();
    let middle = redacted_middle();
    let tail = redacted_tail();
    let shown = redacted_form(prefix, short_token);
    let none = Seq::<char>::empty();
    let behind_head = prefix + middle + short_token + tail;
    let behind_prefix = middle + short_token + tail;
    let behind_middle = short_token + tail;
    assert(shown =~= head + behind_head);
    assert(behind_head =~= prefix + behind_prefix);
    assert(behind_prefix =~= middle + behind_middle);
    assert(head.last() == QUOTE);
    assert(middle[0] == QUOTE);
    assert(middle.last() == QUOTE);
    assert(tail[0] == QUOTE);
    if occurs_in(long_token, shown) {
        lemma_occurs_in_joined(long_token, head, behind_head, QUOTE);
        if occurs_in(long_token, behind_head) {
            lemma_occurs_in_joined(long_token, prefix, behind_prefix, QUOTE);
            if occurs_in(long_token, behind_prefix) {
                lemma_occurs_in_joined(long_token, middle, behind_middle, QUOTE);
                if occurs_in(long_token, behind_middle) {
                    lemma_occurs_in_joined(long_token, short_token, tail, QUOTE);
                }
            }
        }
    }
    if occurs_in(long_token, head) {
        lemma_occurs_in_part(long_token, none, head, behind_head);
        assert(none + head + behind_head =~= shown);
    }
    if occurs_in(long_token, prefix) {
        lemma_occurs_in_part(long_token, head, prefix, behind_prefix);
        assert(head + prefix + behind_prefix =~= shown);
    }
    if occurs_in(long_token, middle) {
        lemma_occurs_in_part(long_token, head + prefix, middle, behind_middle);
        assert(head + prefix + middle + behind_middle =~= shown);
    }
    if occurs_in(long_token, short_token) {
        lemma_occurs_in_part(long_token, head + prefix + middle, short_token, tail);
    }
    if occurs_in(long_token, tail) {
        lemma_occurs_in_part(long_token, head + prefix + middle + short_token, tail, none);
        assert(head + prefix + middle + short_token + tail + none =~= shown);
    }
}

/// A text of the Bitcoin alphabet does not occur in a text in which each
/// stretch of its length holds, at `at`, a character from outside that
/// alphabet.
proof fn lemma_not_in_fixed_text(token: Seq<char>, fixed: Seq<char>, at: int)
    requires
        is_base58_text(token),
        0 <= at < fixed.len(),
        !is_base58_char(fixed[at]),
        fixed.len() - token.len() <= at < token.len(),
    ensures
        !occurs_in(token, fixed),
{
    if occurs_in(token, fixed) {
        let from = choose|from: int| occurs_at(token, fixed, from);
        assert(fixed.subrange(from, from + token.len())[at - from] == fixed[at]);
        assert(is_base58_char(token[at - from]));
    }
}

/// The redacted form of a key does not hold the long token, if the long token
/// is made of the Bitcoin alphabet, is longer than the longest run of that
/// alphabet in the fixed text, and occurs neither in the prefix nor in the
/// short token.
pub proof fn lemma_redacted_form_without_long_token(key: KeyParts)
    requires
        is_base58_text(key.long_token),
        key.long_token.len() > LONGEST_FIXED_RUN,
        !occurs_in(key.long_token, key.prefix),
        !occurs_in(key.long_token, key.short_token),
    ensures
        !occurs_in(key.long_token, redacted_form(key.prefix, key.short_token)),
{
    reveal_strlit("PrefixedApiKey { prefix: \"");
    reveal_strlit("\", short_token: \"");
    reveal_strlit("\", long_token: \"***\" }");
    let token = key.long_token;
    assert(free_of(token, QUOTE)) by {
        assert forall|i: int| 0 <= i < token.len() implies token[i] != QUOTE by {
            assert(is_base58_char(token[i]));
        }
    }
    lemma_not_in_fixed_text(token, redacted_head(), 14);
    lemma_not_in_fixed_text(token, redacted_middle(), 2);
    lemma_not_in_fixed_text(token, redacted_tail(), 7);
    lemma_long_token_in_redacted_form(token, key.prefix, key.short_token);
}

/// Keys with the same long token have the same digest.
pub proof fn lemma_digest_depends_on_long_token(left: PrefixedApiKey, right: PrefixedApiKey)
    requires
        left@.long_token == right@.long_token,
    ensures
        long_token_digest(left@.long_token) == long_token_digest(right@.long_token),
{
}

/// A prefixed API key.
pub struct PrefixedApiKey {
    prefix: String,
    short_token: String,
    long_token: String,
}

impl View for PrefixedApiKey {
    type V = KeyParts;

    closed spec fn view(&self) -> KeyParts {
        KeyParts {
            prefix: self.prefix@,
            short_token: self.short_token@,
            long_token: self.long_token@,
        }
    }
}

impl PrefixedApiKey {
    /// A key of the three parts given, taken as they are.
    pub fn new(prefix: String, short_token: String, long_token: String) -> (key: Self)
        ensures
            key@ == (KeyParts {
                prefix: prefix@,
                short_token: short_token@,
                long_token: long_token@,
            }),
    {
        PrefixedApiKey { prefix, short_token, long_token }
    }

    /// The prefix.
    pub fn prefixed(&self) -> (prefix: &str)
        ensures
            prefix@ == self@.prefix,
    {
        self.prefix.as_str()
    }

    /// The short token.
    pub fn short_token(&self) -> (short_token: &str)
        ensures
            short_token@ == self@.short_token,
    {
        self.short_token.as_str()
    }

    /// The long token: the secret.
    pub fn long_token(&self) -> (long_token: &str)
        ensures
            long_token@ == self@.long_token,
    {
        self.long_token.as_str()
    }

    /// The digest of the long token, 64 characters long. It depends on the
    /// long token alone.
    pub fn long_token_hashed(&self) -> (hash: String)
        ensures
            hash@ == long_token_digest(self@.long_token),
            hash@.len() == DIGEST_LEN,
    {
        digest(self.long_token.as_str().as_bytes())
    }

    /// Reads a key from its external form.
    ///
    /// Succeeds exactly on the texts that the delimiter cuts into three
    /// non-empty parts, and then gives the key of these parts. Any other text
    /// fails with the number of parts it was cut into.
    pub fn from_string(pak_string: &str) -> (parsed: core::result::Result<
        PrefixedApiKey,
        PrefixedApiKeyError,
    >)
        ensures
            match parse(pak_string@) {
                Some(parts) => parsed is Ok && parsed->Ok_0@ == parts,
                None => parsed == Err::<PrefixedApiKey, PrefixedApiKeyError>(
                    PrefixedApiKeyError::WrongNumberOfParts(part_count(pak_string@)),
                ),
            },
            parsed matches Ok(key) ==> well_formed(key@) && external_form(key@) == pak_string@,
    {
        let scan = scan_delimiter(pak_string, KEY_DELIMITER);
        proof {
            lemma_split_len(pak_string@, KEY_DELIMITER);
            if parse(pak_string@) is Some {
                lemma_external_form_of_parsed(pak_string@);
            }
        }
        if scan.count != KEY_PARTS - 1 {
            let parts: usize = match scan.count.checked_add(1) {
                Some(parts) => parts,
                None => usize::MAX,
            };
            return Err(PrefixedApiKeyError::WrongNumberOfParts(parts));
        }
        proof {
            lemma_split_three(pak_string@, KEY_DELIMITER);
        }
        if scan.first == 0 || scan.second == scan.first + 1 || scan.second + 1 == scan.len {
            return Err(PrefixedApiKeyError::WrongNumberOfParts(KEY_PARTS));
        }
        let prefix = pak_string.substring_char(0, scan.first);
        let short_token = pak_string.substring_char(scan.first + 1, scan.second);
        let long_token = pak_string.substring_char(scan.second + 1, scan.len);
        proof {
            assert(pak_string@.take(scan.first as int) =~= prefix@);
            assert(pak_string@.skip(scan.second + 1) =~= long_token@);
        }
        Ok(
            PrefixedApiKey::new(
                String::from_str(prefix),
                String::from_str(short_token),
                String::from_str(long_token),
            ),
        )
    }

    /// The external form of the key: `prefix_shortToken_longToken`. It holds
    /// the secret.
    pub fn to_string(&self) -> (text: String)
        ensures
            text@ == external_form(self@),
    {
        let mut text = self.prefix.clone();
        text.append("_");
        text.append(self.short_token.as_str());
        text.append("_");
        text.append(self.long_token.as_str());
        proof {
            reveal_strlit("_");
            assert("_"@ =~= seq![KEY_DELIMITER]);
        }
        text
    }

    /// How the key is shown in logs and diagnostics: with prefix and short
    /// token as they are and `***` in place of the long token, which is not
    /// read.
    pub fn redacted(&self) -> (text: String)
        ensures
            text@ == redacted_form(self@.prefix, self@.short_token),
    {
        let mut text = String::from_str("PrefixedApiKey { prefix: \"");
        text.append(self.prefix.as_str());
        text.append("\", short_token: \"");
        text.append(self.short_token.as_str());
        text.append("\", long_token: \"***\" }");
        text
    }
}

/// The base-58 text of `bytes` in the Bitcoin alphabet, as the `bs58` crate
/// encodes it.
pub uninterp spec fn base58_encoding(bytes: Seq<u8>) -> Seq<char>;

/// `c` is one of the 58 characters of the Bitcoin alphabet: a digit but `0`,
/// or a letter but `I`, `O` and `l`.
pub open spec fn is_base58_char(c: char) -> bool {
    ||| '1' <= c <= '9'
    ||| 'A' <= c <= 'H'
    ||| 'J' <= c <= 'N'
    ||| 'P' <= c <= 'Z'
    ||| 'a' <= c <= 'k'
    ||| 'm' <= c <= 'z'
}

/// `text` is made of characters of the Bitcoin alphabet.
pub open spec fn is_base58_text(text: Seq<char>) -> bool {
    forall|i: int| 0 <= i < text.len() ==> is_base58_char(text[i])
}

/// `token` encodes some `length` bytes in base 58.
pub open spec fn is_token_of(token: Seq<char>, length: nat) -> bool {
    exists|bytes: Seq<u8>| bytes.len() == length && token == base58_encoding(bytes)
}

/// Calls `bs58::encode` and `into_string` on its result. Trusted: the result
/// is the base-58 text of `bytes`; each of its characters comes from the
/// Bitcoin alphabet; and it is empty only if `bytes` is.
#[verifier::external_body]
fn base58_encode(bytes: &[u8]) -> (text: String)
    ensures
        text@ == base58_encoding(bytes@),
        is_base58_text(text@),
        bytes@.len() > 0 ==> text@.len() > 0,
{
    bs58::encode(bytes).into_string()
}

/// Calls `fill_bytes` of `rand::rngs::OsRng`, which overwrites the buffer with
/// bytes from the operating system's random source and panics if that source
/// fails. Trusted: the buffer keeps its length. Nothing is known of the bytes.
#[verifier::external_body]
fn fill_random(buffer: &mut Vec<u8>)
    ensures
        final(buffer)@.len() == old(buffer)@.len(),
{
    rand::RngCore::fill_bytes(&mut rand::rngs::OsRng, buffer.as_mut_slice())
}

/// What a generator is set up with.
pub struct GeneratorConfig {
    pub prefix: Seq<char>,
    pub short_token_length: usize,
    pub long_token_length: usize,
}

/// With such a setup every generated key is well formed: the prefix is not
/// empty and free of the delimiter, and both tokens encode at least one byte.
pub open spec fn valid_config(config: GeneratorConfig) -> bool {
    &&& config.prefix.len() > 0
    &&& free_of(config.prefix, KEY_DELIMITER)
    &&& config.short_token_length > 0
    &&& config.long_token_length > 0
}

/// What holds of every key that a generator with `config` hands out.
pub open spec fn generated_by(config: GeneratorConfig, key: KeyParts) -> bool {
    &&& key.prefix == config.prefix
    &&& is_token_of(key.short_token, config.short_token_length as nat)
    &&& is_token_of(key.long_token, config.long_token_length as nat)
    &&& is_base58_text(key.short_token)
    &&& is_base58_text(key.long_token)
    &&& config.short_token_length > 0 ==> key.short_token.len() > 0
    &&& config.long_token_length > 0 ==> key.long_token.len() > 0
}

/// A key from a generator with a valid setup is well formed, so its external
/// form parses back to it.
pub proof fn lemma_generated_key_round_trips(config: GeneratorConfig, key: KeyParts)
    requires
        valid_config(config),
        generated_by(config, key),
    ensures
        well_formed(key),
        parse(external_form(key)) == Some(key),
{
    lemma_parse_of_external_form(key);
}

/// Generates keys with a fixed prefix and tokens of fixed byte lengths.
pub struct PrefixedApiKeyController {
    prefix: String,
    short_token_length: usize,
    long_token_length: usize,
}

impl View for PrefixedApiKeyController {
    type V = GeneratorConfig;

    closed spec fn view(&self) -> GeneratorConfig {
        GeneratorConfig {
            prefix: self.prefix@,
            short_token_length: self.short_token_length,
            long_token_length: self.long_token_length,
        }
    }
}

impl PrefixedApiKeyController {
    /// A generator of keys with this prefix, whose short and long tokens
    /// encode this many random bytes.
    pub fn new(prefix: String, short_token_length: usize, long_token_length: usize) -> (controller:
        Self)
        ensures
            controller@ == (GeneratorConfig {
                prefix: prefix@,
                short_token_length,
                long_token_length,
            }),
    {
        Self { prefix, short_token_length, long_token_length }
    }

    /// `length` bytes from the operating system's random source.
    fn get_random_bytes(&self, length: usize) -> (bytes: Vec<u8>)
        ensures
            bytes@.len() == length,
    {
        let mut bytes: Vec<u8> = vec![0u8; length];
        fill_random(&mut bytes);
        bytes
    }

    /// The key with this generator's prefix whose tokens encode the bytes
    /// given.
    pub fn key_from_bytes(&self, short_bytes: &[u8], long_bytes: &[u8]) -> (key: PrefixedApiKey)
        ensures
            key@ == (KeyParts {
                prefix: self@.prefix,
                short_token: base58_encoding(short_bytes@),
                long_token: base58_encoding(long_bytes@),
            }),
            short_bytes@.len() == self@.short_token_length && long_bytes@.len()
                == self@.long_token_length ==> generated_by(self@, key@),
    {
        let short_token = base58_encode(short_bytes);
        let long_token = base58_encode(long_bytes);
        PrefixedApiKey::new(self.prefix.clone(), short_token, long_token)
    }

    /// Generates a key: the prefix, and two tokens that encode fresh random
    /// bytes of the lengths this generator was set up with.
    ///
    /// With a valid setup the key is well formed.
    pub fn generate_key(&self) -> (key: PrefixedApiKey)
        ensures
            generated_by(self@, key@),
            valid_config(self@) ==> well_formed(key@),
    {
        let short_bytes = self.get_random_bytes(self.short_token_length);
        let long_bytes = self.get_random_bytes(self.long_token_length);
        self.key_from_bytes(short_bytes.as_slice(), long_bytes.as_slice())
    }

    /// The digest of the long token of `pak`.
    pub fn long_token_hashed(&self, pak: &PrefixedApiKey) -> (hash: String)
        ensures
            hash@ == long_token_digest(pak@.long_token),
            hash@.len() == DIGEST_LEN,
    {
        pak.long_token_hashed()
    }

    /// Generates a key and hands it out together with the digest of its long
    /// token, so that the digest can be stored without the key being read
    /// again.
    pub fn generate_key_and_hash(&self) -> (generated: (PrefixedApiKey, String))
        ensures
            generated_by(self@, generated.0@),
            valid_config(self@) ==> well_formed(generated.0@),
            generated.1@ == long_token_digest(generated.0@.long_token),
            generated.1@.len() == DIGEST_LEN,
    {
        let pak = self.generate_key();
        let hash = self.long_token_hashed(&pak);
        (pak, hash)
    }
}

} // verus!
