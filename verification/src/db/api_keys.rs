//! API keys and their roles.

use vstd::prelude::*;
use base64::Engine;
use rand::Rng;
use sha2::Digest;
use crate::text::{chars_of, glue, lowercase, str_eq, string_from_range, to_lowercase};

verus! {

/// The text that the URL-safe base64 alphabet without padding gives for
/// bytes, as `base64` encodes them.
pub uninterp spec fn base64_url(bytes: Seq<u8>) -> Seq<char>;

/// The SHA-256 digest of the UTF-8 bytes of a text, in lowercase hexadecimal
/// digits, as `sha2` computes it.
pub uninterp spec fn sha256_hex(text: Seq<char>) -> Seq<char>;

/// Draws 32 bytes from `rand::thread_rng`. Nothing is stated of them.
#[verifier::external_body]
fn random_key_bytes() -> (r: [u8; 32]) {
    rand::thread_rng().gen()
}

/// Encodes 32 bytes with `base64`'s `URL_SAFE_NO_PAD` engine. Ten groups of
/// three bytes give four characters each and the last two bytes three, 43
/// characters in all.
#[verifier::external_body]
fn encode_key_bytes(bytes: &[u8; 32]) -> (r: String)
    ensures
        r@ == base64_url(bytes@),
        r@.len() == 43,
{
    base64::engine::general_purpose::URL_SAFE_NO_PAD.encode(bytes)
}

/// Digests a text with `Sha256::digest` and writes the digest in lowercase
/// hexadecimal digits.
#[verifier::external_body]
fn sha256_of(text: &str) -> (r: String)
    ensures
        r@ == sha256_hex(text@),
{
    format!("{:x}", sha2::Sha256::digest(text.as_bytes()))
}

/// The prefix that marks an API key.
pub open spec fn key_text(bytes: Seq<u8>) -> Seq<char> {
    "cv_"@ + base64_url(bytes)
}

/// The digest under which an API key is stored.
pub fn hash_api_key(key: &str) -> (r: String)
    ensures
        r@ == sha256_hex(key@),
{
    sha256_of(key)
}

/// A new API key: the key itself, its first twelve characters to show, and
/// the digest to store.
pub fn generate_api_key() -> (r: (String, String, String))
    ensures
        exists|bytes: Seq<u8>| r.0@ == #[trigger] key_text(bytes),
        r.0@.len() == 46,
        r.1@ == r.0@.subrange(0, 12),
        r.2@ == sha256_hex(r.0@),
{
    let bytes: [u8; 32] = random_key_bytes();
    let r = api_key_from_bytes(&bytes);
    assert(r.0@ == key_text(bytes@));
    r
}

/// The API key that 32 bytes give: the key, its first twelve characters, and
/// its digest.
pub fn api_key_from_bytes(bytes: &[u8; 32]) -> (r: (String, String, String))
    ensures
        r.0@ == key_text(bytes@),
        r.0@.len() == 46,
        r.1@ == r.0@.subrange(0, 12),
        r.2@ == sha256_hex(r.0@),
{
    let encoded: String = encode_key_bytes(bytes);
    let key: String = glue("cv_", encoded.as_str());
    proof {
        reveal_strlit("cv_");
    }
    let v: Vec<char> = chars_of(key.as_str());
    let prefix: String = string_from_range(&v, 0, 12);
    let hash: String = hash_api_key(key.as_str());
    (key, prefix, hash)
}

/// What the holder of an API key may do.
#[derive(Clone, Copy, Debug, PartialEq, Eq, Structural)]
pub enum ApiKeyRole {
    Admin,
    User,
}

impl ApiKeyRole {
    /// The lowercase name of the role.
    pub open spec fn text(self) -> Seq<char> {
        match self {
            ApiKeyRole::Admin => "admin"@,
            ApiKeyRole::User => "user"@,
        }
    }

    /// The role that a lowercase name stands for; any name but `admin` is
    /// `User`.
    pub open spec fn of_lowercase(s: Seq<char>) -> ApiKeyRole {
        if s == "admin"@ {
            ApiKeyRole::Admin
        } else {
            ApiKeyRole::User
        }
    }

    /// The name of the role.
    pub fn as_str(&self) -> (r: &'static str)
        ensures
            r@ == self.text(),
    {
        match self {
            ApiKeyRole::Admin => "admin",
            ApiKeyRole::User => "user",
        }
    }

    /// The name of the role, as an owned string.
    pub fn to_string(&self) -> (r: String)
        ensures
            r@ == self.text(),
    {
        self.as_str().to_string()
    }

    /// Reads a role without regard to case; an unknown name is `User`.
    pub fn from_name(s: &str) -> (r: ApiKeyRole)
        ensures
            r == Self::of_lowercase(lowercase(s@)),
    {
        Self::from_lowercase(to_lowercase(s).as_str())
    }

    /// The role that a name given in lowercase stands for; an unknown name is
    /// `User`.
    pub fn from_lowercase(s: &str) -> (r: ApiKeyRole)
        ensures
            r == Self::of_lowercase(s@),
    {
        if str_eq(s, "admin") {
            ApiKeyRole::Admin
        } else {
            ApiKeyRole::User
        }
    }
}

/// The key in clear as it is kept with a stored key: that of an ordinary
/// user is kept, so that it can be shown to them again; that of an
/// administrator is not.
pub fn plaintext_to_store(role: ApiKeyRole, key: &str) -> (r: Option<String>)
    ensures
        r.deep_view() == (if role == ApiKeyRole::User {
            Some(key@)
        } else {
            None
        }),
{
    match role {
        ApiKeyRole::User => Some(key.to_string()),
        ApiKeyRole::Admin => None,
    }
}

/// What creating an API key asks for.
#[derive(Debug)]
pub struct CreateApiKeyRequest {
    /// A name that describes the key.
    pub name: String,
    /// The role: `admin` or `user`.
    pub role: String,
    /// How many requests a minute the key allows.
    pub rate_limit: i64,
    /// How many requests a day the key allows, if bounded.
    pub daily_limit: Option<i64>,
    pub notes: Option<String>,
}

/// The role of a key whose request names none.
pub fn default_role() -> (r: String)
    ensures
        r@ == ApiKeyRole::User.text(),
{
    "user".to_string()
}

/// How many requests a minute a key allows whose request names no limit.
pub fn default_rate_limit() -> (r: i64)
    ensures
        r == 100,
{
    100
}

/// What changing an API key asks for; an absent field stays as it is.
#[derive(Debug)]
pub struct UpdateApiKeyRequest {
    pub name: Option<String>,
    pub is_active: Option<bool>,
    pub rate_limit: Option<i64>,
    pub daily_limit: Option<i64>,
    pub notes: Option<String>,
}

} // verus!
