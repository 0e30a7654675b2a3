//! Signing in with an external account: the address to sign in at, the
//! sign-ins that are under way, what the callback comes to, and what the
//! answers show of the user.

use vstd::prelude::*;
use vstd::utf8::encode_utf8;
use crate::clock::Timestamp;
use crate::db::oauth_users::{OAuthLoginResult, OAuthUser};
use crate::error::{AppError, AppErrorView};
use crate::models::auth::AuthInfo;
use crate::services::google_drive::{percent_encode, percent_encoded};
use crate::services::stats::ApiKeyStats;
use crate::text::{glue, hex_digits, str_eq, u128_to_hex};

verus! {

/// Where a user signs in with an external account.
#[derive(Debug)]
pub struct GoogleAuthUrlResponse {
    pub url: String,
}

/// A user as the answers show them.
#[derive(Debug)]
pub struct UserInfo {
    pub id: String,
    pub email: String,
    pub name: Option<String>,
    pub picture_url: Option<String>,
}

impl UserInfo {
    /// What the answers show of a stored user.
    pub fn from_user(user: OAuthUser) -> (r: UserInfo)
        ensures
            r.id@ == user.id@,
            r.email@ == user.email@,
            r.name.deep_view() == user.name.deep_view(),
            r.picture_url.deep_view() == user.picture_url.deep_view(),
    {
        UserInfo { id: user.id, email: user.email, name: user.name, picture_url: user.picture_url }
    }
}

/// How many conversions a user made.
#[derive(Clone, Copy, Debug, PartialEq, Eq, Structural)]
pub struct UserStats {
    pub total_conversions: u64,
    pub successful: u64,
    pub failed: u64,
    pub bytes_processed: u64,
}

impl UserStats {
    /// The counts of a user: those of their key, or zeros where nothing is
    /// known of the key.
    pub open spec fn of_key_stats(stats: Option<&ApiKeyStats>) -> UserStats {
        match stats {
            Some(s) => UserStats {
                total_conversions: s.total_conversions,
                successful: s.successful_conversions,
                failed: s.failed_conversions,
                bytes_processed: s.total_input_bytes,
            },
            None => UserStats { total_conversions: 0, successful: 0, failed: 0, bytes_processed: 0 },
        }
    }

    /// The counts of a user, from those of their key.
    pub fn from_key_stats(stats: Option<&ApiKeyStats>) -> (r: UserStats)
        ensures
            r == Self::of_key_stats(stats),
    {
        match stats {
            Some(s) => UserStats {
                total_conversions: s.total_conversions,
                successful: s.successful_conversions,
                failed: s.failed_conversions,
                bytes_processed: s.total_input_bytes,
            },
            None => UserStats { total_conversions: 0, successful: 0, failed: 0, bytes_processed: 0 },
        }
    }
}

/// The user who asks, the visible part of their key and their counts.
#[derive(Debug)]
pub struct CurrentUserResponse {
    pub user: UserInfo,
    pub api_key_prefix: String,
    pub stats: UserStats,
}

/// What the external account sends back after a sign-in.
#[derive(Debug)]
pub struct GoogleCallbackQuery {
    pub code: Option<String>,
    pub state: Option<String>,
    pub error: Option<String>,
}

/// How long a sign-in may take, in seconds.
pub const STATE_LIFETIME_SECS: u64 = 600;

/// Where the external account sends the user back to when the settings name
/// no address.
pub const DEFAULT_REDIRECT_URI: &'static str = "http://localhost:4000/api/v1/auth/google/callback";

/// The visible part of a key of which none is stored.
pub const UNKNOWN_KEY_PREFIX: &'static str = "cv_...";

/// A sign-in that is under way: the state that was handed out for it and the
/// second of a steady clock at which that was done.
pub struct OAuthState {
    pub state: String,
    pub issued_at: u64,
}

/// What an `OAuthState` holds.
pub struct OAuthStateView {
    pub state: Seq<char>,
    pub issued_at: u64,
}

impl View for OAuthState {
    type V = OAuthStateView;

    open spec fn view(&self) -> OAuthStateView {
        OAuthStateView { state: self.state@, issued_at: self.issued_at }
    }
}

impl DeepView for OAuthState {
    type V = OAuthStateView;

    open spec fn deep_view(&self) -> OAuthStateView {
        self@
    }
}

/// The sign-ins that are under way, newest last. No state stands for two of
/// them where the list is changed by `remember` and `take` alone.
pub struct OAuthStates {
    pub states: Vec<OAuthState>,
}

/// Whether a sign-in that began at `issued_at` can still be completed at the
/// second `now`.
pub open spec fn is_live(issued_at: u64, now: u64) -> bool {
    now <= issued_at || now - issued_at < STATE_LIFETIME_SECS
}

/// The sign-ins that satisfy `pick`, in their order.
pub open spec fn states_where(
    states: Seq<OAuthStateView>,
    pick: spec_fn(OAuthStateView) -> bool,
) -> Seq<OAuthStateView>
    decreases states.len(),
{
    if states.len() == 0 {
        Seq::empty()
    } else if pick(states.last()) {
        states_where(states.drop_last(), pick).push(states.last())
    } else {
        states_where(states.drop_last(), pick)
    }
}

/// The condition of the sign-ins that stay when a state is handed out at
/// `now`: those that can still be completed and have another state.
pub open spec fn stays_at(state: Seq<char>, now: u64) -> spec_fn(OAuthStateView) -> bool {
    |s: OAuthStateView| is_live(s.issued_at, now) && s.state != state
}

/// The condition of the sign-ins with another state.
pub open spec fn other_than(state: Seq<char>) -> spec_fn(OAuthStateView) -> bool {
    |s: OAuthStateView| s.state != state
}

/// Whether a sign-in with the state is under way.
pub open spec fn knows(states: Seq<OAuthStateView>, state: Seq<char>) -> bool {
    exists|i: int| 0 <= i < states.len() && (#[trigger] states[i]).state == state
}

/// The sign-ins after a state was handed out at `now`: those that had taken
/// too long are forgotten, and the state is the newest.
pub open spec fn after_remember(
    states: Seq<OAuthStateView>,
    state: Seq<char>,
    now: u64,
) -> Seq<OAuthStateView> {
    states_where(states, stays_at(state, now)).push(OAuthStateView { state, issued_at: now })
}

/// Whether no state stands for two sign-ins.
pub open spec fn no_state_twice(states: Seq<OAuthStateView>) -> bool {
    forall|i: int, j: int|
        0 <= i < j < states.len() ==> (#[trigger] states[i]).state != (#[trigger] states[j]).state
}

/// The sign-ins that satisfy a condition are sign-ins of the list, each
/// satisfies the condition, and no state stands twice among them where none
/// did in the list.
pub proof fn lemma_states_where(
    states: Seq<OAuthStateView>,
    pick: spec_fn(OAuthStateView) -> bool,
)
    ensures
        forall|k: int|
            0 <= k < states_where(states, pick).len() ==> pick(
                #[trigger] states_where(states, pick)[k],
            ) && states.contains(states_where(states, pick)[k]),
        no_state_twice(states) ==> no_state_twice(states_where(states, pick)),
    decreases states.len(),
{
    if states.len() > 0 {
        let rest = states.drop_last();
        let kept = states_where(rest, pick);
        let out = states_where(states, pick);
        lemma_states_where(rest, pick);
        assert forall|k: int| 0 <= k < out.len() implies pick(#[trigger] out[k])
            && states.contains(out[k]) by {
            if k < kept.len() {
                assert(out[k] == kept[k]);
                let i = choose|i: int| 0 <= i < rest.len() && rest[i] == kept[k];
                assert(states[i] == out[k]);
            } else {
                assert(out[k] == states[states.len() - 1]);
            }
        }
        if no_state_twice(states) {
            assert forall|i: int, j: int| 0 <= i < j < rest.len() implies (#[trigger] rest[i]).state
                != (#[trigger] rest[j]).state by {
                assert(rest[i] == states[i] && rest[j] == states[j]);
            }
            assert forall|i: int, j: int| 0 <= i < j < out.len() implies (#[trigger] out[i]).state
                != (#[trigger] out[j]).state by {
                assert(out[i] == kept[i]);
                if j < kept.len() {
                    assert(out[j] == kept[j]);
                } else {
                    let a = choose|a: int| 0 <= a < rest.len() && rest[a] == kept[i];
                    assert(states[a] == kept[i]);
                    assert(out[j] == states[states.len() - 1]);
                }
            }
        }
    }
}

/// Handing out a state and ending a sign-in both leave every state with one
/// sign-in at most: the list stands for a map from states to instants.
pub proof fn lemma_states_stay_distinct(states: Seq<OAuthStateView>, state: Seq<char>, now: u64)
    requires
        no_state_twice(states),
    ensures
        no_state_twice(after_remember(states, state, now)),
        no_state_twice(states_where(states, other_than(state))),
        !knows(states_where(states, other_than(state)), state),
{
    lemma_states_where(states, stays_at(state, now));
    lemma_states_where(states, other_than(state));
    let kept = states_where(states, stays_at(state, now));
    let out = after_remember(states, state, now);
    assert forall|i: int, j: int| 0 <= i < j < out.len() implies (#[trigger] out[i]).state != (
    #[trigger] out[j]).state by {
        assert(out[i] == kept[i]);
        if j < kept.len() {
            assert(out[j] == kept[j]);
        } else {
            assert(stays_at(state, now)(kept[i]));
        }
    }
    let others = states_where(states, other_than(state));
    assert forall|i: int| 0 <= i < others.len() implies (#[trigger] others[i]).state != state by {
        assert(other_than(state)(others[i]));
    }
}

impl OAuthStates {
    /// No sign-in is under way.
    pub fn new() -> (r: OAuthStates)
        ensures
            r.states@.len() == 0,
    {
        OAuthStates { states: Vec::new() }
    }

    /// Notes that a state was handed out at the second `now`, and forgets
    /// the sign-ins that have taken ten minutes or more.
    pub fn remember(&mut self, state: String, now: u64)
        ensures
            final(self).states.deep_view() == after_remember(
                old(self).states.deep_view(),
                state@,
                now,
            ),
    {
        let ghost all = self.states.deep_view();
        let ghost pick = stays_at(state@, now);
        let mut kept: Vec<OAuthState> = Vec::new();
        let mut i: usize = 0;
        while i < self.states.len()
            invariant
                i <= self.states.len(),
                all == self.states.deep_view(),
                pick == stays_at(state@, now),
                kept.deep_view() == states_where(all.take(i as int), pick),
            decreases self.states.len() - i,
        {
            proof {
                assert(all.take(i + 1).drop_last() =~= all.take(i as int));
                assert(all.take(i + 1).last() == self.states[i as int]@);
            }
            let s = &self.states[i];
            let live: bool = now <= s.issued_at || now - s.issued_at < STATE_LIFETIME_SECS;
            if live && !str_eq(s.state.as_str(), state.as_str()) {
                let ghost before = kept.deep_view();
                kept.push(OAuthState { state: s.state.clone(), issued_at: s.issued_at });
                assert(kept.deep_view() =~= before.push(s@));
            }
            i += 1;
        }
        proof {
            assert(all.take(i as int) =~= all);
        }
        let ghost before = kept.deep_view();
        let ghost added = OAuthStateView { state: state@, issued_at: now };
        kept.push(OAuthState { state, issued_at: now });
        assert(kept.deep_view() =~= before.push(added));
        self.states = kept;
    }

    /// Ends the sign-in with the state. Returns whether one was under way.
    pub fn take(&mut self, state: &str) -> (r: bool)
        ensures
            r == knows(old(self).states.deep_view(), state@),
            final(self).states.deep_view() == states_where(
                old(self).states.deep_view(),
                other_than(state@),
            ),
    {
        let ghost all = self.states.deep_view();
        let ghost pick = other_than(state@);
        let mut kept: Vec<OAuthState> = Vec::new();
        let mut found: bool = false;
        let mut i: usize = 0;
        while i < self.states.len()
            invariant
                i <= self.states.len(),
                all == self.states.deep_view(),
                pick == other_than(state@),
                kept.deep_view() == states_where(all.take(i as int), pick),
                found == knows(all.take(i as int), state@),
            decreases self.states.len() - i,
        {
            proof {
                assert(all.take(i + 1).drop_last() =~= all.take(i as int));
                assert(all.take(i + 1).last() == self.states[i as int]@);
            }
            let s = &self.states[i];
            let ghost found_before = found;
            if str_eq(s.state.as_str(), state) {
                found = true;
                assert(all.take(i + 1)[i as int].state == state@);
            } else {
                let ghost before = kept.deep_view();
                kept.push(OAuthState { state: s.state.clone(), issued_at: s.issued_at });
                assert(kept.deep_view() =~= before.push(s@));
                proof {
                    if knows(all.take(i + 1), state@) {
                        let k = choose|k: int|
                            0 <= k < i + 1 && (#[trigger] all.take(i + 1)[k]).state == state@;
                        assert(all.take(i as int)[k].state == state@);
                    }
                }
            }
            proof {
                if found_before {
                    let k = choose|k: int|
                        0 <= k < i && (#[trigger] all.take(i as int)[k]).state == state@;
                    assert(all.take(i + 1)[k].state == state@);
                }
            }
            i += 1;
        }
        proof {
            assert(all.take(i as int) =~= all);
        }
        self.states = kept;
        found
    }
}

/// The state of a sign-in that begins at an instant: the nanoseconds since
/// the epoch in hexadecimal digits.
pub open spec fn state_text(at: (i64, u32)) -> Seq<char> {
    hex_digits((at.0 * 1_000_000_000 + at.1) as nat)
}

/// The state for a sign-in that begins at `now`, an instant that is not
/// before the epoch.
pub fn generate_random_state(now: &Timestamp) -> (r: String)
    requires
        now.secs() >= 0,
    ensures
        r@ == state_text((now.secs(), now.nanos())),
{
    let secs: u128 = now.timestamp() as u128;
    let nanos: u128 = secs * 1_000_000_000 + (now.subsec_nanos() as u128);
    u128_to_hex(nanos)
}

/// The percent-encoding of a text.
pub open spec fn encoded(s: Seq<char>) -> Seq<char> {
    percent_encoded(encode_utf8(s))
}

/// The address at which a user signs in: it names the client, where the user
/// is sent back to, what the client asks for, and the state of the sign-in.
pub open spec fn auth_url_text(
    client_id: Seq<char>,
    redirect_uri: Seq<char>,
    state: Seq<char>,
) -> Seq<char> {
    "https://accounts.google.com/o/oauth2/v2/auth?client_id="@ + encoded(client_id)
        + "&redirect_uri="@ + encoded(redirect_uri)
        + "&response_type=code&scope=openid%20email%20profile%20https://www.googleapis.com/auth/drive.file&state="@
        + encoded(state) + "&access_type=offline&prompt=consent"@
}

/// The text of the refusal where no client is configured.
pub open spec fn not_configured_text() -> Seq<char> {
    "Google OAuth non configurato"@
}

/// Begins a sign-in at the instant `now`, which is the second `steady_now` of
/// the steady clock: hands out a state, notes it, and gives the address at
/// which the user signs in. Without a client nothing is noted and the
/// request fails.
pub fn get_google_auth_url(
    client_id: Option<&str>,
    states: &mut OAuthStates,
    redirect_uri: &str,
    now: &Timestamp,
    steady_now: u64,
) -> (r: Result<GoogleAuthUrlResponse, AppError>)
    requires
        now.secs() >= 0,
    ensures
        match client_id {
            Some(id) => {
                let state = state_text((now.secs(), now.nanos()));
                &&& r matches Ok(answer)
                &&& answer.url@ == auth_url_text(id@, redirect_uri@, state)
                &&& final(states).states.deep_view() == after_remember(
                    old(states).states.deep_view(),
                    state,
                    steady_now,
                )
            },
            None => {
                &&& r matches Err(e)
                &&& e@ == AppErrorView::Internal(not_configured_text())
                &&& final(states).states.deep_view() == old(states).states.deep_view()
            },
        },
{
    let id: &str = match client_id {
        Some(id) => id,
        None => {
            return Err(AppError::Internal("Google OAuth non configurato".to_string()));
        },
    };
    let oauth_state: String = generate_random_state(now);
    let mut url: String = glue(
        "https://accounts.google.com/o/oauth2/v2/auth?client_id=",
        percent_encode(id).as_str(),
    );
    url.append("&redirect_uri=");
    url.append(percent_encode(redirect_uri).as_str());
    url.append(
        "&response_type=code&scope=openid%20email%20profile%20https://www.googleapis.com/auth/drive.file&state=",
    );
    url.append(percent_encode(oauth_state.as_str()).as_str());
    url.append("&access_type=offline&prompt=consent");
    states.remember(oauth_state, steady_now);
    Ok(GoogleAuthUrlResponse { url })
}

/// What is exchanged for the tokens of a user who signed in.
#[derive(Debug)]
pub struct CodeExchange {
    pub code: String,
    pub client_id: String,
    pub client_secret: String,
}

/// What a `CodeExchange` holds.
pub struct CodeExchangeView {
    pub code: Seq<char>,
    pub client_id: Seq<char>,
    pub client_secret: Seq<char>,
}

impl View for CodeExchange {
    type V = CodeExchangeView;

    open spec fn view(&self) -> CodeExchangeView {
        CodeExchangeView {
            code: self.code@,
            client_id: self.client_id@,
            client_secret: self.client_secret@,
        }
    }
}

/// What the callback of a sign-in comes to: the exchange to make, or the
/// reason why the sign-in fails. An error of the external account comes first,
/// then a missing code, a missing state, a state of no sign-in under way, and a
/// missing client or secret.
pub open spec fn callback_check(
    code: Option<Seq<char>>,
    state: Option<Seq<char>>,
    error: Option<Seq<char>>,
    states: Seq<OAuthStateView>,
    client_id: Option<Seq<char>>,
    client_secret: Option<Seq<char>>,
) -> Result<CodeExchangeView, Seq<char>> {
    if error is Some {
        Err(error->0)
    } else if code is None {
        Err("Missing authorization code"@)
    } else if state is None {
        Err("Missing state parameter"@)
    } else if !knows(states, state->0) {
        Err("Invalid state - possible CSRF attack"@)
    } else if client_id is None || client_secret is None {
        Err("Google OAuth not configured"@)
    } else {
        Ok(
            CodeExchangeView {
                code: code->0,
                client_id: client_id->0,
                client_secret: client_secret->0,
            },
        )
    }
}

/// The sign-ins after a callback: a callback that brings no error, a code and
/// a state ends the sign-in with that state, any other changes nothing.
pub open spec fn after_callback(
    code: Option<Seq<char>>,
    state: Option<Seq<char>>,
    error: Option<Seq<char>>,
    states: Seq<OAuthStateView>,
) -> Seq<OAuthStateView> {
    if error is None && code is Some && state is Some {
        states_where(states, other_than(state->0))
    } else {
        states
    }
}

/// Checks the callback of a sign-in and ends the sign-in that it belongs to.
pub fn google_callback(
    query: GoogleCallbackQuery,
    states: &mut OAuthStates,
    client_id: Option<&str>,
    client_secret: Option<&str>,
) -> (r: Result<CodeExchange, String>)
    ensures
        match callback_check(
            query.code.deep_view(),
            query.state.deep_view(),
            query.error.deep_view(),
            old(states).states.deep_view(),
            client_id.deep_view(),
            client_secret.deep_view(),
        ) {
            Ok(exchange) => r matches Ok(x) && x@ == exchange,
            Err(reason) => r matches Err(text) && text@ == reason,
        },
        final(states).states.deep_view() == after_callback(
            query.code.deep_view(),
            query.state.deep_view(),
            query.error.deep_view(),
            old(states).states.deep_view(),
        ),
{
    if let Some(error) = query.error {
        return Err(error);
    }
    let code: String = match query.code {
        Some(c) => c,
        None => {
            return Err("Missing authorization code".to_string());
        },
    };
    let oauth_state: String = match query.state {
        Some(s) => s,
        None => {
            return Err("Missing state parameter".to_string());
        },
    };
    if !states.take(oauth_state.as_str()) {
        return Err("Invalid state - possible CSRF attack".to_string());
    }
    let id: &str = match client_id {
        Some(id) => id,
        None => {
            return Err("Google OAuth not configured".to_string());
        },
    };
    let secret: &str = match client_secret {
        Some(s) => s,
        None => {
            return Err("Google OAuth not configured".to_string());
        },
    };
    Ok(CodeExchange { code, client_id: id.to_string(), client_secret: secret.to_string() })
}

/// The address that a user whose sign-in failed is sent to.
pub open spec fn error_redirect_text(frontend_url: Seq<char>, reason: Seq<char>) -> Seq<char> {
    frontend_url + "?auth_error="@ + encoded(reason)
}

/// The address that a user whose sign-in failed is sent to: that of the
/// front end with the reason.
pub fn error_redirect(frontend_url: &str, reason: &str) -> (r: String)
    ensures
        r@ == error_redirect_text(frontend_url@, reason@),
{
    let mut url: String = glue(frontend_url, "?auth_error=");
    url.append(percent_encode(reason).as_str());
    url
}

/// A part of an address that is there only where a value is.
pub open spec fn optional_part(label: Seq<char>, value: Option<Seq<char>>) -> Seq<char> {
    match value {
        Some(v) => label + encoded(v),
        None => Seq::empty(),
    }
}

/// The address that a user who signed in is sent to.
pub open spec fn success_redirect_text(
    frontend_url: Seq<char>,
    user_id: Seq<char>,
    email: Seq<char>,
    api_key_prefix: Seq<char>,
    name: Option<Seq<char>>,
    picture_url: Option<Seq<char>>,
    is_new_user: bool,
    api_key: Option<Seq<char>>,
) -> Seq<char> {
    frontend_url + "?auth_success=true&user_id="@ + encoded(user_id) + "&email="@ + encoded(email)
        + "&api_key_prefix="@ + encoded(api_key_prefix) + optional_part("&name="@, name)
        + optional_part("&picture="@, picture_url) + (if is_new_user {
        "&is_new_user=true"@
    } else {
        Seq::empty()
    }) + optional_part("&api_key="@, api_key)
}

fn push_optional(url: &mut String, label: &str, value: &Option<String>)
    ensures
        final(url)@ == old(url)@ + optional_part(label@, value.deep_view()),
{
    match value {
        Some(v) => {
            url.append(label);
            url.append(percent_encode(v.as_str()).as_str());
            assert(url@ =~= old(url)@ + (label@ + encoded(v@)));
        },
        None => {
            assert(url@ =~= old(url)@ + Seq::<char>::empty());
        },
    }
}

/// The address that a user who signed in is sent to: that of the front end
/// with the user, the visible part of their key and, where there is one, the
/// key itself.
pub fn success_redirect(frontend_url: &str, result: &OAuthLoginResult) -> (r: String)
    ensures
        r@ == success_redirect_text(
            frontend_url@,
            result.user.id@,
            result.user.email@,
            result.api_key_prefix@,
            result.user.name.deep_view(),
            result.user.picture_url.deep_view(),
            result.is_new_user,
            result.api_key.deep_view(),
        ),
{
    let mut url: String = glue(frontend_url, "?auth_success=true&user_id=");
    url.append(percent_encode(result.user.id.as_str()).as_str());
    url.append("&email=");
    url.append(percent_encode(result.user.email.as_str()).as_str());
    url.append("&api_key_prefix=");
    url.append(percent_encode(result.api_key_prefix.as_str()).as_str());
    push_optional(&mut url, "&name=", &result.user.name);
    push_optional(&mut url, "&picture=", &result.user.picture_url);
    if result.is_new_user {
        url.append("&is_new_user=true");
    } else {
        assert(url@ =~= url@ + Seq::<char>::empty());
    }
    push_optional(&mut url, "&api_key=", &result.api_key);
    url
}

/// The key of the sender who asks who they are, or why they are not told: a
/// guest has to sign in, and so has a sender without a key.
pub open spec fn signed_in_key(auth: AuthInfo) -> Result<Seq<char>, AppErrorView> {
    if auth.is_guest {
        Err(AppErrorView::Unauthorized("Autenticazione richiesta"@))
    } else {
        match auth.api_key_id {
            Some(key) => Ok(key@),
            None => Err(AppErrorView::Unauthorized("API Key non trovata"@)),
        }
    }
}

/// The key of a sender who asks who they are.
pub fn require_signed_in(auth: &AuthInfo) -> (r: Result<String, AppError>)
    ensures
        match signed_in_key(*auth) {
            Ok(key) => r matches Ok(k) && k@ == key,
            Err(error) => r matches Err(e) && e@ == error,
        },
{
    if auth.is_guest {
        return Err(AppError::Unauthorized("Autenticazione richiesta".to_string()));
    }
    match &auth.api_key_id {
        Some(key) => Ok(key.clone()),
        None => Err(AppError::Unauthorized("API Key non trovata".to_string())),
    }
}

/// What a signed-in sender is told of themselves: the user that their key
/// belongs to, the visible part of the key, `cv_...` where none is stored,
/// and their counts. Without such a user the answer is `NotFound`.
pub fn get_current_user(
    user: Option<OAuthUser>,
    stats: Option<&ApiKeyStats>,
    api_key_prefix: Option<String>,
) -> (r: Result<CurrentUserResponse, AppError>)
    ensures
        match user {
            Some(u) => {
                &&& r matches Ok(answer)
                &&& answer.user.id@ == u.id@
                &&& answer.user.email@ == u.email@
                &&& answer.user.name.deep_view() == u.name.deep_view()
                &&& answer.user.picture_url.deep_view() == u.picture_url.deep_view()
                &&& answer.api_key_prefix@ == (match api_key_prefix {
                    Some(p) => p@,
                    None => UNKNOWN_KEY_PREFIX@,
                })
                &&& answer.stats == UserStats::of_key_stats(stats)
            },
            None => r matches Err(e) && e@ == AppErrorView::NotFound("Utente non trovato"@),
        },
{
    let user: OAuthUser = match user {
        Some(u) => u,
        None => {
            return Err(AppError::NotFound("Utente non trovato".to_string()));
        },
    };
    let prefix: String = match api_key_prefix {
        Some(p) => p,
        None => UNKNOWN_KEY_PREFIX.to_string(),
    };
    Ok(
        CurrentUserResponse {
            user: UserInfo::from_user(user),
            api_key_prefix: prefix,
            stats: UserStats::from_key_stats(stats),
        },
    )
}

} // verus!
