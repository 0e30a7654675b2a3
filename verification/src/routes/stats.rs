//! Which statistics a reader is sent.

use vstd::prelude::*;
use crate::clock::Timestamp;
use crate::db::api_keys::ApiKeyRole;
use crate::models::auth::AuthInfo;
use crate::services::stats::{
    can_be_masked, has_conversions, is_global_stats, is_key_stats, mask_api_key, masked,
    shows_recent, ConversionSummary, StatsQuery, StatsResponse, StatsServiceInner,
};

verus! {

/// The key whose recent conversions a reader is shown, as the log holds it:
/// an administrator is shown those of all keys, any other reader those of
/// their own key.
pub open spec fn shown_key(auth: AuthInfo) -> Option<Seq<char>> {
    if auth.role == ApiKeyRole::Admin {
        None
    } else {
        match auth.api_key_id {
            Some(k) => Some(masked(k@)),
            None => None,
        }
    }
}

/// Whether a reader is shown recent conversions at all: a guest is not, nor
/// is a reader who is no administrator and has no key.
pub open spec fn shows_conversions(auth: AuthInfo) -> bool {
    !auth.is_guest && (auth.role == ApiKeyRole::Admin || auth.api_key_id is Some)
}

/// The statistics that a reader is sent at the instant `now`. Everyone is
/// sent those of all conversions. A reader who is no guest is also sent those
/// of their key, where the log holds a conversion of it, and the recent
/// conversions that the query asks for: an administrator those of all keys,
/// any other reader those of their own.
pub fn get_stats(log: &StatsServiceInner, auth: &AuthInfo, query: &StatsQuery, now: &Timestamp) -> (r:
    StatsResponse)
    requires
        auth.api_key_id matches Some(k) ==> can_be_masked(k@),
    ensures
        is_global_stats(r.global, log.records.deep_view(), (now.secs(), now.nanos())),
        match auth.api_key_id {
            Some(k) if !auth.is_guest => {
                &&& r.api_key_stats is Some <==> has_conversions(log.records.deep_view(), masked(k@))
                &&& r.api_key_stats matches Some(stats) ==> is_key_stats(
                    stats,
                    log.records.deep_view(),
                    masked(k@),
                    (now.secs(), now.nanos()),
                )
            },
            _ => r.api_key_stats is None,
        },
        if shows_conversions(*auth) {
            shows_recent(
                r.recent_conversions@,
                log.records.deep_view(),
                query.filter(shown_key(*auth)),
                query.limit,
            )
        } else {
            r.recent_conversions@.len() == 0
        },
        r.server_uptime_seconds == 0,
        r.generated_at.text() == now.text(),
{
    if auth.is_guest {
        return get_guest_stats(log, now);
    }
    let api_key_stats = match &auth.api_key_id {
        Some(k) => log.get_api_key_stats(k.as_str(), now),
        None => None,
    };
    let recent_conversions: Vec<ConversionSummary> = match auth.role {
        ApiKeyRole::Admin => log.recent_conversions_of(query, None),
        ApiKeyRole::User => match &auth.api_key_id {
            Some(k) => {
                let key: String = mask_api_key(k.as_str());
                log.recent_conversions_of(query, Some(key.as_str()))
            },
            None => Vec::new(),
        },
    };
    StatsResponse {
        global: log.get_global_stats(now),
        api_key_stats,
        recent_conversions,
        server_uptime_seconds: 0,
        generated_at: now.copy(),
    }
}

/// The statistics that a guest is sent at the instant `now`: those of all
/// conversions and nothing else.
pub fn get_guest_stats(log: &StatsServiceInner, now: &Timestamp) -> (r: StatsResponse)
    ensures
        is_global_stats(r.global, log.records.deep_view(), (now.secs(), now.nanos())),
        r.api_key_stats is None,
        r.recent_conversions@.len() == 0,
        r.server_uptime_seconds == 0,
        r.generated_at.text() == now.text(),
{
    StatsResponse {
        global: log.get_global_stats(now),
        api_key_stats: None,
        recent_conversions: Vec::new(),
        server_uptime_seconds: 0,
        generated_at: now.copy(),
    }
}

} // verus!
