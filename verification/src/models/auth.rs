//! Who makes a request.

use vstd::prelude::*;
use crate::db::api_keys::ApiKeyRole;

verus! {

/// What is known of the sender of a request.
#[derive(Clone, Debug)]
pub struct AuthInfo {
    /// The API key of the sender, if they sent one.
    pub api_key_id: Option<String>,
    /// Whether the sender is a guest.
    pub is_guest: bool,
    /// The role of the sender.
    pub role: ApiKeyRole,
    /// The address of the sender.
    pub client_ip: Option<String>,
}

impl Default for AuthInfo {
    /// A guest of whom nothing is known.
    fn default() -> (r: Self)
        ensures
            r.api_key_id is None,
            r.is_guest,
            r.role == ApiKeyRole::User,
            r.client_ip is None,
    {
        AuthInfo { api_key_id: None, is_guest: true, role: ApiKeyRole::User, client_ip: None }
    }
}

} // verus!
