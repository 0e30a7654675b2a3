//! The users who signed in with an external account, and their access
//! tokens.

use vstd::prelude::*;
use crate::clock::{rfc3339_parse, Timestamp};
use crate::db::api_keys::CreateApiKeyRequest;
use crate::text::{clone_opt, glue};
use crate::routes::auth::UNKNOWN_KEY_PREFIX;

verus! {

/// A user who signed in with an external account.
pub struct OAuthUser {
    pub id: String,
    pub google_id: String,
    pub email: String,
    pub name: Option<String>,
    pub picture_url: Option<String>,
    pub api_key_id: String,
    pub created_at: Timestamp,
    pub updated_at: Timestamp,
    pub last_login_at: Timestamp,
}

/// What signing in gave.
pub struct OAuthLoginResult {
    pub user: OAuthUser,
    /// The key of the user in clear.
    pub api_key: Option<String>,
    pub api_key_prefix: String,
    pub is_new_user: bool,
}

/// The tokens with which the storage of a user is reached.
pub struct OAuthTokens {
    pub access_token: String,
    pub refresh_token: Option<String>,
    pub expires_at: Option<Timestamp>,
}

/// What an external account says of its user.
#[derive(Debug)]
pub struct GoogleUserInfo {
    pub google_id: String,
    pub email: String,
    pub name: Option<String>,
    pub picture_url: Option<String>,
}

/// How long before its expiry a token counts as expired, in seconds.
pub const EXPIRY_MARGIN_SECS: i64 = 300;

/// Whether a token that expires at the given instant counts as expired at
/// `now`: from five minutes before the expiry on. A token without an expiry
/// always counts as expired.
pub open spec fn token_expired(expires_at: Option<(i64, u32)>, now: (i64, u32)) -> bool {
    match expires_at {
        Some(e) => now.0 > e.0 - EXPIRY_MARGIN_SECS || (now.0 == e.0 - EXPIRY_MARGIN_SECS
            && now.1 >= e.1),
        None => true,
    }
}

/// Whether the tokens count as expired at `now`.
pub fn is_token_expired(tokens: &OAuthTokens, now: &Timestamp) -> (r: bool)
    ensures
        r == token_expired(
            match tokens.expires_at {
                Some(e) => Some((e.secs(), e.nanos())),
                None => None,
            },
            (now.secs(), now.nanos()),
        ),
{
    match &tokens.expires_at {
        Some(e) => {
            let limit: i128 = (e.timestamp() as i128) - 300;
            let at: i128 = now.timestamp() as i128;
            at > limit || (at == limit && now.subsec_nanos() >= e.subsec_nanos())
        },
        None => true,
    }
}

/// How many requests a minute the key of a new user allows.
pub const USER_RATE_LIMIT: i64 = 100;

/// How many requests a day the key of a new user allows.
pub const USER_DAILY_LIMIT: i64 = 500;

/// The request for the key of a user who signed in with an external
/// account: a key of an ordinary user, named after the address of the user,
/// with a note that names the account.
pub fn key_request_for(user_info: &GoogleUserInfo) -> (r: CreateApiKeyRequest)
    ensures
        r.name@ == "Google: "@ + user_info.email@,
        r.role@ == "user"@,
        r.rate_limit == USER_RATE_LIMIT,
        r.daily_limit == Some(USER_DAILY_LIMIT),
        r.notes.deep_view() == Some("Auto-generated for Google user: "@ + user_info.google_id@),
{
    CreateApiKeyRequest {
        name: glue("Google: ", user_info.email.as_str()),
        role: "user".to_string(),
        rate_limit: USER_RATE_LIMIT,
        daily_limit: Some(USER_DAILY_LIMIT),
        notes: Some(glue("Auto-generated for Google user: ", user_info.google_id.as_str())),
    }
}

/// The user that is stored for an account that signs in for the first time
/// at `now`, with the given identifier and key.
pub fn new_oauth_user(
    id: String,
    user_info: &GoogleUserInfo,
    api_key_id: String,
    now: &Timestamp,
) -> (r: OAuthUser)
    ensures
        r.id@ == id@,
        r.google_id@ == user_info.google_id@,
        r.email@ == user_info.email@,
        r.name.deep_view() == user_info.name.deep_view(),
        r.picture_url.deep_view() == user_info.picture_url.deep_view(),
        r.api_key_id@ == api_key_id@,
        r.created_at.text() == now.text(),
        r.updated_at.text() == now.text(),
        r.last_login_at.text() == now.text(),
{
    OAuthUser {
        id,
        google_id: user_info.google_id.clone(),
        email: user_info.email.clone(),
        name: clone_opt(&user_info.name),
        picture_url: clone_opt(&user_info.picture_url),
        api_key_id,
        created_at: now.copy(),
        updated_at: now.copy(),
        last_login_at: now.copy(),
    }
}

/// What is to be done for an account that signs in.
pub enum LoginPlan {
    /// The account has a user whose key is stored in clear: this is the
    /// result.
    Returning(OAuthLoginResult),
    /// The account has a user whose key is not stored in clear: the user gets
    /// a new key.
    NewKey(OAuthUser),
    /// The account has no user yet: one is made, with a key.
    Register,
}

/// Decides what is to be done for an account that signs in, from the user
/// that is stored for it, the key of that user in clear and the visible part
/// of that key. A user whose key is stored in clear is given that key again,
/// with `cv_...` for a visible part that is not stored.
pub fn login_or_register(
    existing: Option<OAuthUser>,
    plaintext_key: Option<String>,
    key_prefix: Option<String>,
) -> (r: LoginPlan)
    ensures
        match (existing, plaintext_key) {
            (Some(user), Some(key)) => {
                &&& r matches LoginPlan::Returning(result)
                &&& result.user == user
                &&& result.api_key == Some(key)
                &&& result.api_key_prefix@ == (match key_prefix {
                    Some(p) => p@,
                    None => UNKNOWN_KEY_PREFIX@,
                })
                &&& !result.is_new_user
            },
            (Some(user), None) => r matches LoginPlan::NewKey(u) && u == user,
            (None, _) => r is Register,
        },
{
    match existing {
        Some(user) => match plaintext_key {
            Some(key) => {
                let prefix: String = match key_prefix {
                    Some(p) => p,
                    None => UNKNOWN_KEY_PREFIX.to_string(),
                };
                LoginPlan::Returning(
                    OAuthLoginResult {
                        user,
                        api_key: Some(key),
                        api_key_prefix: prefix,
                        is_new_user: false,
                    },
                )
            },
            None => LoginPlan::NewKey(user),
        },
        None => LoginPlan::Register,
    }
}

/// What signing in gives a user who got a new key: the user with that key,
/// and the key in clear.
pub fn with_new_key(user: OAuthUser, key_id: String, api_key: String, key_prefix: String) -> (r:
    OAuthLoginResult)
    ensures
        r.user == (OAuthUser { api_key_id: key_id, ..user }),
        r.api_key == Some(api_key),
        r.api_key_prefix == key_prefix,
        !r.is_new_user,
{
    let mut user = user;
    user.api_key_id = key_id;
    OAuthLoginResult { user, api_key: Some(api_key), api_key_prefix: key_prefix, is_new_user: false }
}

/// What signing in gives a user who was made for it: the user and the key in
/// clear.
pub fn registered(user: OAuthUser, api_key: String, key_prefix: String) -> (r: OAuthLoginResult)
    ensures
        r.user == user,
        r.api_key == Some(api_key),
        r.api_key_prefix == key_prefix,
        r.is_new_user,
{
    OAuthLoginResult { user, api_key: Some(api_key), api_key_prefix: key_prefix, is_new_user: true }
}

/// The tokens of a stored user: none where no access token is stored; an
/// expiry that cannot be read counts as none.
pub fn tokens_from_row(
    access_token: Option<String>,
    refresh_token: Option<String>,
    token_expires_at: Option<String>,
) -> (r: Option<OAuthTokens>)
    ensures
        match access_token {
            Some(token) => {
                &&& r matches Some(tokens)
                &&& tokens.access_token == token
                &&& tokens.refresh_token == refresh_token
                &&& match token_expires_at {
                    Some(text) => match Timestamp::normalized(text@) {
                        Some(_) => tokens.expires_at matches Some(e) && Some((e.secs(), e.nanos()))
                            == rfc3339_parse(text@),
                        None => tokens.expires_at is None,
                    },
                    None => tokens.expires_at is None,
                }
            },
            None => r is None,
        },
{
    match access_token {
        Some(token) => {
            let expires_at: Option<Timestamp> = match token_expires_at {
                Some(text) => Timestamp::parse(text.as_str()),
                None => None,
            };
            Some(OAuthTokens { access_token: token, refresh_token, expires_at })
        },
        None => None,
    }
}

/// The instant at which tokens expire that were given at `now` for
/// `expires_in_seconds` seconds; none where the seconds are more than an
/// `i64` holds or the instant is none of the calendar.
pub open spec fn expiry_of(now: Timestamp, expires_in_seconds: u64) -> Option<(i64, u32)> {
    if expires_in_seconds > i64::MAX {
        None
    } else {
        now.shifted(expires_in_seconds as int)
    }
}

/// When tokens expire that were given at `now` for `expires_in_seconds`
/// seconds.
pub fn token_expiry(now: &Timestamp, expires_in_seconds: u64) -> (r: Option<Timestamp>)
    ensures
        match expiry_of(*now, expires_in_seconds) {
            Some(at) => r matches Some(e) && (e.secs(), e.nanos()) == at,
            None => r is None,
        },
{
    if expires_in_seconds > i64::MAX as u64 {
        return None;
    }
    now.plus_seconds(expires_in_seconds as i64)
}

} // verus!
