//! What an identity token says of its bearer.

use vstd::prelude::*;
use crate::text::{glue, str_eq};

verus! {

/// The claims of an identity token.
#[derive(Debug)]
pub struct GoogleClaims {
    /// The identifier of the user.
    pub sub: String,
    pub email: String,
    pub email_verified: bool,
    pub name: Option<String>,
    pub picture: Option<String>,
    /// For whom the token was issued.
    pub aud: String,
    /// Who issued the token.
    pub iss: String,
    /// When the token expires, in seconds since the epoch.
    pub exp: usize,
    /// When the token was issued, in seconds since the epoch.
    pub iat: usize,
}

/// Why an identity token was refused.
#[derive(Debug)]
pub enum GoogleAuthError {
    InvalidToken(String),
    TokenExpired,
    InvalidIssuer,
    InvalidAudience,
    KeyFetchError(String),
    KeyNotFound(String),
}

impl GoogleAuthError {
    /// The text of the error.
    pub fn to_string(&self) -> (r: String)
        ensures
            r@ == (match self {
                GoogleAuthError::InvalidToken(s) => "Token non valido: "@ + s@,
                GoogleAuthError::TokenExpired => "Token scaduto"@,
                GoogleAuthError::InvalidIssuer => "Issuer non valido"@,
                GoogleAuthError::InvalidAudience => "Audience non valido"@,
                GoogleAuthError::KeyFetchError(s) => "Errore nel recupero delle chiavi Google: "@
                    + s@,
                GoogleAuthError::KeyNotFound(s) => "Chiave non trovata: "@ + s@,
            }),
    {
        match self {
            GoogleAuthError::InvalidToken(s) => glue("Token non valido: ", s.as_str()),
            GoogleAuthError::TokenExpired => "Token scaduto".to_string(),
            GoogleAuthError::InvalidIssuer => "Issuer non valido".to_string(),
            GoogleAuthError::InvalidAudience => "Audience non valido".to_string(),
            GoogleAuthError::KeyFetchError(s) => glue(
                "Errore nel recupero delle chiavi Google: ",
                s.as_str(),
            ),
            GoogleAuthError::KeyNotFound(s) => glue("Chiave non trovata: ", s.as_str()),
        }
    }
}

/// A public key of the issuer.
#[derive(Debug)]
pub struct GoogleJwk {
    pub kid: String,
    pub n: String,
    pub e: String,
    pub kty: String,
    pub alg: String,
}

/// The public keys of the issuer.
#[derive(Debug)]
pub struct GoogleJwks {
    pub keys: Vec<GoogleJwk>,
}

/// The user that a verified token stands for.
#[derive(Debug)]
pub struct VerifiedGoogleUser {
    pub google_id: String,
    pub email: String,
    pub name: Option<String>,
    pub picture_url: Option<String>,
}

impl VerifiedGoogleUser {
    /// The user that the claims of a verified token describe.
    pub fn from_claims(claims: GoogleClaims) -> (r: VerifiedGoogleUser)
        ensures
            r.google_id@ == claims.sub@,
            r.email@ == claims.email@,
            r.name.deep_view() == claims.name.deep_view(),
            r.picture_url.deep_view() == claims.picture.deep_view(),
    {
        VerifiedGoogleUser {
            google_id: claims.sub,
            email: claims.email,
            name: claims.name,
            picture_url: claims.picture,
        }
    }
}

/// How long fetched keys are used, in seconds.
pub const KEYS_CACHE_SECS: u64 = 3600;

/// The keys of the issuer as they were last fetched, with the second of a
/// steady clock at which they were fetched.
pub struct GoogleKeysCache {
    pub keys: Option<(Vec<GoogleJwk>, u64)>,
    pub cache_duration: u64,
}

impl GoogleKeysCache {
    /// A cache without keys that uses fetched keys for an hour.
    pub fn new() -> (r: GoogleKeysCache)
        ensures
            r.keys is None,
            r.cache_duration == KEYS_CACHE_SECS,
    {
        GoogleKeysCache { keys: None, cache_duration: KEYS_CACHE_SECS }
    }

    /// Whether the cache holds keys that can still be used at the second
    /// `now`: keys that were fetched less than `cache_duration` ago.
    pub open spec fn is_fresh(self, now: u64) -> bool {
        self.keys matches Some((_, fetched_at)) && (now <= fetched_at || now - fetched_at
            < self.cache_duration)
    }

    /// The keys of the cache, where they can still be used at the second
    /// `now`; otherwise they have to be fetched.
    pub fn get_keys(&self, now: u64) -> (r: Option<&Vec<GoogleJwk>>)
        ensures
            r is Some <==> self.is_fresh(now),
            r matches Some(keys) ==> (self.keys matches Some((held, _)) && *keys == held),
    {
        match &self.keys {
            Some((keys, fetched_at)) => {
                if now <= *fetched_at || now - *fetched_at < self.cache_duration {
                    Some(keys)
                } else {
                    None
                }
            },
            None => None,
        }
    }

    /// Puts keys that were fetched at the second `now` into the cache.
    pub fn store(&mut self, keys: Vec<GoogleJwk>, now: u64)
        ensures
            final(self).keys == Some((keys, now)),
            final(self).cache_duration == old(self).cache_duration,
    {
        self.keys = Some((keys, now));
    }
}

/// The position of the key with the identifier `kid`: of the last one, where
/// several keys have it.
pub open spec fn key_position(keys: Seq<GoogleJwk>, kid: Seq<char>) -> Option<int>
    decreases keys.len(),
{
    if keys.len() == 0 {
        None
    } else if keys.last().kid@ == kid {
        Some(keys.len() - 1)
    } else {
        key_position(keys.drop_last(), kid)
    }
}

/// Finds the key that a token names by its identifier. Of several keys with
/// the identifier the last counts. Without such a key the token is refused
/// with `KeyNotFound` and the identifier.
pub fn find_key<'a>(keys: &'a Vec<GoogleJwk>, kid: &str) -> (r: Result<&'a GoogleJwk, GoogleAuthError>)
    ensures
        match key_position(keys@, kid@) {
            Some(i) => 0 <= i < keys.len() && (r matches Ok(key) && *key == keys[i]),
            None => r matches Err(GoogleAuthError::KeyNotFound(name)) && name@ == kid@,
        },
{
    proof {
        assert(keys@.take(keys.len() as int) =~= keys@);
    }
    let mut i: usize = keys.len();
    while i > 0
        invariant
            i <= keys.len(),
            key_position(keys@, kid@) == key_position(keys@.take(i as int), kid@),
        decreases i,
    {
        proof {
            assert(keys@.take(i as int).drop_last() =~= keys@.take(i - 1));
            assert(keys@.take(i as int).last() == keys[i - 1]);
        }
        if str_eq(keys[i - 1].kid.as_str(), kid) {
            return Ok(&keys[i - 1]);
        }
        i -= 1;
    }
    Err(GoogleAuthError::KeyNotFound(kid.to_string()))
}

} // verus!
