//! The session orchestrator: configuration, the pending PKCE attempt, the
//! cached credentials, and every decision of the login, refresh and
//! session flows. Network and file work happen between its steps.
use vstd::prelude::*;
use vstd::string::StringExecFns;

use crate::callback::LOOPBACK_REDIRECT_URI;
use crate::pkce::{authorize_url, build_authorize_url, challenge_of, generate_pkce, joined};
use crate::storage::has_auth_state;
use crate::types::{
    str_eq, valid_timestamp, with_detail, AuthError, AuthSession, AuthState, PkceData,
    SpotifyTokenResponse, SpotifyTokens, SpotifyUser,
};

verus! {

broadcast use vstd::string::group_string_axioms;

/// Token endpoint of the music service.
pub const TOKEN_ENDPOINT: &'static str = "https://accounts.spotify.com/api/token";

/// Profile endpoint of the music service.
pub const PROFILE_ENDPOINT: &'static str = "https://api.spotify.com/v1/me";

/// A session whose token expires within this many seconds is refreshed.
pub const REFRESH_LOOKAHEAD_SECS: i64 = 300;

pub const DEFAULT_CLIENT_ID: &'static str = "a53c8535d69c4f0d9109b007bf10ca2d";

pub const DEFAULT_REDIRECT_URI: &'static str = "http://127.0.0.1:8888/callback";

/// OAuth client settings.
#[derive(Debug, Clone)]
pub struct SpotifyConfig {
    pub client_id: String,
    pub redirect_uri: String,
    pub scopes: Vec<String>,
}

pub open spec fn default_scope_list() -> Seq<Seq<char>> {
    seq![
        "user-read-private"@,
        "user-read-email"@,
        "user-read-playback-state"@,
        "user-modify-playback-state"@,
        "user-read-currently-playing"@,
        "user-library-read"@,
        "user-library-modify"@,
        "playlist-read-private"@,
        "playlist-read-collaborative"@,
        "playlist-modify-public"@,
        "playlist-modify-private"@,
        "user-read-recently-played"@,
        "user-top-read"@,
        "user-follow-read"@,
        "user-follow-modify"@,
        "streaming"@,
    ]
}

impl SpotifyConfig {
    /// The scopes the application asks for.
    pub fn default_scopes() -> (r: Vec<String>)
        ensures
            r.deep_view() == default_scope_list(),
    {
        let r = vec![
            String::from_str("user-read-private"),
            String::from_str("user-read-email"),
            String::from_str("user-read-playback-state"),
            String::from_str("user-modify-playback-state"),
            String::from_str("user-read-currently-playing"),
            String::from_str("user-library-read"),
            String::from_str("user-library-modify"),
            String::from_str("playlist-read-private"),
            String::from_str("playlist-read-collaborative"),
            String::from_str("playlist-modify-public"),
            String::from_str("playlist-modify-private"),
            String::from_str("user-read-recently-played"),
            String::from_str("user-top-read"),
            String::from_str("user-follow-read"),
            String::from_str("user-follow-modify"),
            String::from_str("streaming"),
        ];
        assert(r.deep_view() =~= default_scope_list());
        r
    }

    /// The configuration from optional settings, each falling back to its
    /// default when absent.
    pub fn from_settings(client_id: Option<String>, redirect_uri: Option<String>) -> (r: SpotifyConfig)
        ensures
            client_id matches Some(c) ==> r.client_id == c,
            client_id is None ==> r.client_id@ == DEFAULT_CLIENT_ID@,
            redirect_uri matches Some(u) ==> r.redirect_uri == u,
            redirect_uri is None ==> r.redirect_uri@ == DEFAULT_REDIRECT_URI@,
            r.scopes.deep_view() == default_scope_list(),
    {
        let client_id = match client_id {
            Some(c) => c,
            None => String::from_str(DEFAULT_CLIENT_ID),
        };
        let redirect_uri = match redirect_uri {
            Some(u) => u,
            None => String::from_str(DEFAULT_REDIRECT_URI),
        };
        SpotifyConfig { client_id, redirect_uri, scopes: Self::default_scopes() }
    }
}

impl Default for SpotifyConfig {
    fn default() -> (r: SpotifyConfig)
        ensures
            r.client_id@ == DEFAULT_CLIENT_ID@,
            r.redirect_uri@ == DEFAULT_REDIRECT_URI@,
            r.scopes.deep_view() == default_scope_list(),
    {
        SpotifyConfig::from_settings(None, None)
    }
}

/// The form fields of an authorization-code exchange.
pub open spec fn code_exchange_fields(
    code: Seq<char>,
    redirect_uri: Seq<char>,
    client_id: Seq<char>,
    verifier: Seq<char>,
) -> Seq<(Seq<char>, Seq<char>)> {
    seq![
        ("grant_type"@, "authorization_code"@),
        ("code"@, code),
        ("redirect_uri"@, redirect_uri),
        ("client_id"@, client_id),
        ("code_verifier"@, verifier),
    ]
}

/// The form fields of a refresh-token exchange.
pub open spec fn refresh_fields(refresh_token: Seq<char>, client_id: Seq<char>) -> Seq<(Seq<char>, Seq<char>)> {
    seq![
        ("grant_type"@, "refresh_token"@),
        ("refresh_token"@, refresh_token),
        ("client_id"@, client_id),
    ]
}

fn field(key: &str, value: &str) -> (r: (String, String))
    ensures
        r.0@ == key@,
        r.1@ == value@,
{
    (String::from_str(key), String::from_str(value))
}

/// The form of an authorization-code exchange.
pub fn code_exchange_form(code: &str, redirect_uri: &str, client_id: &str, verifier: &str) -> (r: Vec<(String, String)>)
    ensures
        r.deep_view() == code_exchange_fields(code@, redirect_uri@, client_id@, verifier@),
{
    let r = vec![
        field("grant_type", "authorization_code"),
        field("code", code),
        field("redirect_uri", redirect_uri),
        field("client_id", client_id),
        field("code_verifier", verifier),
    ];
    assert(r.deep_view() =~= code_exchange_fields(code@, redirect_uri@, client_id@, verifier@));
    r
}

/// The form of a refresh-token exchange.
pub fn refresh_form(refresh_token: &str, client_id: &str) -> (r: Vec<(String, String)>)
    ensures
        r.deep_view() == refresh_fields(refresh_token@, client_id@),
{
    let r = vec![
        field("grant_type", "refresh_token"),
        field("refresh_token", refresh_token),
        field("client_id", client_id),
    ];
    assert(r.deep_view() =~= refresh_fields(refresh_token@, client_id@));
    r
}

/// The error for a token endpoint that refused a code exchange.
pub fn exchange_failed(body: &str) -> (r: AuthError)
    ensures
        r matches AuthError::SpotifyError(d) && d@ == "Token exchange failed: "@ + body@,
{
    AuthError::SpotifyError(with_detail("Token exchange failed: ", body))
}

/// The error for a token endpoint that refused a refresh.
pub fn refresh_failed(body: &str) -> (r: AuthError)
    ensures
        r matches AuthError::RefreshFailed(d) && d@ == body@,
{
    AuthError::RefreshFailed(String::from_str(body))
}

/// The error for a profile endpoint that refused the request.
pub fn profile_failed(body: &str) -> (r: AuthError)
    ensures
        r matches AuthError::SpotifyError(d) && d@ == "Failed to fetch user profile: "@ + body@,
{
    AuthError::SpotifyError(with_detail("Failed to fetch user profile: ", body))
}

/// The error of a client without a client id.
pub open spec fn unconfigured_failure(e: AuthError) -> bool {
    e matches AuthError::SpotifyError(d) && d@ == "Client ID not configured"@
}

/// The error of a code exchange answered without a refresh token.
pub open spec fn missing_refresh_failure(e: AuthError) -> bool {
    e matches AuthError::SpotifyError(d) && d@ == "No refresh token received"@
}

/// The error of a token lifetime whose end is no valid timestamp.
pub open spec fn lifetime_failure(e: AuthError) -> bool {
    e matches AuthError::SpotifyError(d) && d@ == "Invalid token lifetime"@
}

/// Whether a response carries a usable refresh token.
pub open spec fn has_refresh_token(resp: SpotifyTokenResponse) -> bool {
    resp.refresh_token matches Some(t) && t@.len() > 0
}

fn lifetime_end(now: i64, expires_in: i64) -> (r: Option<i64>)
    ensures
        r is Some <==> valid_timestamp(now + expires_in),
        r matches Some(t) ==> t == now + expires_in,
{
    let end = now as i128 + expires_in as i128;
    if crate::types::MIN_TIMESTAMP as i128 <= end && end <= crate::types::MAX_TIMESTAMP as i128 {
        Some(end as i64)
    } else {
        None
    }
}

/// The tokens of a code exchange answered at time `now`. The answer must
/// carry a refresh token, and the expiry must be a valid timestamp.
pub fn tokens_from_exchange(resp: SpotifyTokenResponse, now: i64) -> (r: Result<SpotifyTokens, AuthError>)
    ensures
        r is Ok <==> has_refresh_token(resp) && valid_timestamp(now + resp.expires_in),
        r matches Ok(t) ==> {
            &&& t.access_token == resp.access_token
            &&& Some(t.refresh_token) == resp.refresh_token
            &&& t.token_type == resp.token_type
            &&& t.scope == resp.scope
            &&& t.expires_at == now + resp.expires_in
            &&& t.wf()
        },
        !has_refresh_token(resp) ==> (r matches Err(e) && missing_refresh_failure(e)),
        has_refresh_token(resp) && !valid_timestamp(now + resp.expires_in) ==> (r matches Err(e)
            && lifetime_failure(e)),
{
    let refresh_token = match resp.refresh_token {
        Some(t) => {
            if t.as_str().is_empty() {
                return Err(AuthError::SpotifyError(String::from_str("No refresh token received")));
            }
            t
        },
        None => {
            return Err(AuthError::SpotifyError(String::from_str("No refresh token received")));
        },
    };
    let expires_at = match lifetime_end(now, resp.expires_in) {
        Some(t) => t,
        None => {
            return Err(AuthError::SpotifyError(String::from_str("Invalid token lifetime")));
        },
    };
    Ok(SpotifyTokens {
        access_token: resp.access_token,
        refresh_token,
        token_type: resp.token_type,
        expires_at,
        scope: resp.scope,
    })
}

/// The tokens of a refresh answered at time `now`; without a new refresh
/// token in the answer the previous one is kept.
pub fn tokens_from_refresh(resp: SpotifyTokenResponse, previous_refresh_token: &String, now: i64) -> (r: Result<SpotifyTokens, AuthError>)
    requires
        previous_refresh_token@.len() > 0,
    ensures
        r is Ok <==> valid_timestamp(now + resp.expires_in),
        r matches Ok(t) ==> {
            &&& t.access_token == resp.access_token
            &&& has_refresh_token(resp) ==> Some(t.refresh_token) == resp.refresh_token
            &&& !has_refresh_token(resp) ==> t.refresh_token == *previous_refresh_token
            &&& t.token_type == resp.token_type
            &&& t.scope == resp.scope
            &&& t.expires_at == now + resp.expires_in
            &&& t.wf()
        },
        r matches Err(e) ==> lifetime_failure(e),
{
    let expires_at = match lifetime_end(now, resp.expires_in) {
        Some(t) => t,
        None => {
            return Err(AuthError::SpotifyError(String::from_str("Invalid token lifetime")));
        },
    };
    let refresh_token = match resp.refresh_token {
        Some(t) => {
            if t.as_str().is_empty() {
                previous_refresh_token.clone()
            } else {
                t
            }
        },
        None => previous_refresh_token.clone(),
    };
    Ok(SpotifyTokens {
        access_token: resp.access_token,
        refresh_token,
        token_type: resp.token_type,
        expires_at,
        scope: resp.scope,
    })
}

/// The credentials of a fresh login at time `now`.
pub fn new_auth_state(tokens: SpotifyTokens, user: SpotifyUser, now: i64) -> (r: AuthState)
    ensures
        r.tokens == tokens,
        r.user == user,
        r.created_at == now,
        r.last_refresh == now,
{
    AuthState { tokens, user, created_at: now, last_refresh: now }
}

/// The credentials after a refresh at time `now`: new tokens, the same
/// profile and login time.
pub fn refreshed_auth_state(previous: AuthState, tokens: SpotifyTokens, now: i64) -> (r: AuthState)
    ensures
        r.tokens == tokens,
        r.user == previous.user,
        r.created_at == previous.created_at,
        r.last_refresh == now,
{
    AuthState { tokens, user: previous.user, created_at: previous.created_at, last_refresh: now }
}

/// What `get_session` does with the credentials it found.
#[derive(Debug, Clone)]
pub enum SessionDecision {
    /// No credentials anywhere.
    NoSession,
    /// The token is fresh enough: this is the session.
    Ready(AuthSession),
    /// The token expires within the lookahead window: refresh first.
    Refresh,
}

/// Decides, at time `now`, between returning the session and refreshing.
pub fn decide_session(state: Option<&AuthState>, now: i64) -> (r: SessionDecision)
    requires
        state matches Some(s) ==> s.wf(),
    ensures
        state is None ==> r is NoSession,
        state matches Some(s) ==> (now + REFRESH_LOOKAHEAD_SECS >= s.tokens.expires_at
            <==> r is Refresh),
        state matches Some(s) ==> (r matches SessionDecision::Ready(x) ==> x.presents(*s)),
        state is Some ==> !(r is NoSession),
{
    match state {
        None => SessionDecision::NoSession,
        Some(s) => {
            if s.tokens.expires_within_at(now, REFRESH_LOOKAHEAD_SECS) {
                SessionDecision::Refresh
            } else {
                SessionDecision::Ready(AuthSession::from_state(s))
            }
        },
    }
}

/// The result of `get_session` once a refresh of `state` came back with
/// `outcome` at time `now`: the refreshed session, or on failure the old
/// one while its token has not yet expired.
pub fn session_after_refresh(state: &AuthState, now: i64, outcome: Result<AuthSession, AuthError>) -> (r: Result<Option<AuthSession>, AuthError>)
    requires
        state.wf(),
    ensures
        outcome is Ok ==> r == Ok::<Option<AuthSession>, AuthError>(Some(outcome->Ok_0)),
        outcome is Err && now >= state.tokens.expires_at ==> r matches Err(AuthError::TokenExpired),
        outcome is Err && now < state.tokens.expires_at ==> (r matches Ok(Some(x))
            && x.presents(*state)),
{
    match outcome {
        Ok(s) => Ok(Some(s)),
        Err(_) => {
            if state.tokens.is_expired_at(now) {
                Err(AuthError::TokenExpired)
            } else {
                Ok(Some(AuthSession::from_state(state)))
            }
        },
    }
}

/// The access token of a session lookup; no session is an error.
pub fn access_token_of(lookup: Result<Option<AuthSession>, AuthError>) -> (r: Result<String, AuthError>)
    ensures
        lookup matches Ok(Some(s)) ==> r == Ok::<String, AuthError>(s.access_token),
        lookup matches Ok(None) ==> r matches Err(AuthError::NotAuthenticated),
        lookup is Err ==> r is Err && r->Err_0 == lookup->Err_0,
{
    match lookup {
        Ok(Some(s)) => Ok(s.access_token),
        Ok(None) => Err(AuthError::NotAuthenticated),
        Err(e) => Err(e),
    }
}

/// The authentication state of the application: its configuration, the
/// pending PKCE attempt (at most one) and the cached credentials.
#[derive(Debug, Clone)]
pub struct AppAuthState {
    pub config: SpotifyConfig,
    pub pending_pkce: Option<PkceData>,
    pub current_auth: Option<AuthState>,
}

impl AppAuthState {
    pub open spec fn wf(&self) -> bool {
        self.current_auth matches Some(a) ==> a.wf()
    }

    pub fn new(config: SpotifyConfig) -> (r: AppAuthState)
        ensures
            r.config == config,
            r.pending_pkce is None,
            r.current_auth is None,
            r.wf(),
    {
        AppAuthState { config, pending_pkce: None, current_auth: None }
    }

    /// Fails unless a client id is configured.
    pub fn ensure_configured(&self) -> (r: Result<(), AuthError>)
        ensures
            r is Ok <==> self.config.client_id@.len() > 0,
            r matches Err(e) ==> unconfigured_failure(e),
    {
        if self.config.client_id.as_str().is_empty() {
            Err(AuthError::SpotifyError(String::from_str("Client ID not configured")))
        } else {
            Ok(())
        }
    }

    /// Makes `pkce` the pending attempt, replacing any earlier one, and
    /// returns its authorization URL for `redirect_uri`.
    pub fn begin_authorization(&mut self, pkce: PkceData, redirect_uri: &str) -> (r: Result<String, AuthError>)
        ensures
            r is Ok <==> old(self).config.client_id@.len() > 0,
            r is Err ==> *final(self) == *old(self),
            r matches Err(e) ==> unconfigured_failure(e),
            r matches Ok(url) ==> {
                &&& final(self).pending_pkce == Some(pkce)
                &&& url@ == authorize_url(
                    old(self).config.client_id@,
                    redirect_uri@,
                    joined(old(self).config.scopes.deep_view()),
                    pkce.challenge@,
                    pkce.state@,
                )
            },
            final(self).config == old(self).config,
            final(self).current_auth == old(self).current_auth,
    {
        self.ensure_configured()?;
        let url = build_authorize_url(
            self.config.client_id.as_str(),
            redirect_uri,
            &self.config.scopes,
            &pkce,
        );
        self.pending_pkce = Some(pkce);
        Ok(url)
    }

    /// Starts an attempt with a fresh PKCE triple and returns the
    /// authorization URL for the configured redirect URI.
    pub fn get_auth_url(&mut self) -> (r: Result<String, AuthError>)
        ensures
            r is Ok <==> old(self).config.client_id@.len() > 0,
            r is Err ==> *final(self) == *old(self),
            r matches Err(e) ==> unconfigured_failure(e),
            r matches Ok(url) ==> exists|p: PkceData| {
                &&& final(self).pending_pkce == Some(p)
                &&& p.challenge@ == challenge_of(p.verifier@)
                &&& url@ == #[trigger] authorize_url(
                    old(self).config.client_id@,
                    old(self).config.redirect_uri@,
                    joined(old(self).config.scopes.deep_view()),
                    p.challenge@,
                    p.state@,
                )
            },
            final(self).config == old(self).config,
            final(self).current_auth == old(self).current_auth,
    {
        self.ensure_configured()?;
        let pkce = generate_pkce();
        let redirect_uri = self.config.redirect_uri.clone();
        self.begin_authorization(pkce, redirect_uri.as_str())
    }

    /// Starts an attempt of the loopback flow, whose redirect goes to the
    /// local listener.
    pub fn begin_loopback_authorization(&mut self, pkce: PkceData) -> (r: Result<String, AuthError>)
        ensures
            r is Ok <==> old(self).config.client_id@.len() > 0,
            r is Err ==> *final(self) == *old(self),
            r matches Err(e) ==> unconfigured_failure(e),
            r matches Ok(url) ==> {
                &&& final(self).pending_pkce == Some(pkce)
                &&& url@ == authorize_url(
                    old(self).config.client_id@,
                    LOOPBACK_REDIRECT_URI@,
                    joined(old(self).config.scopes.deep_view()),
                    pkce.challenge@,
                    pkce.state@,
                )
            },
            final(self).config == old(self).config,
            final(self).current_auth == old(self).current_auth,
    {
        self.begin_authorization(pkce, LOOPBACK_REDIRECT_URI)
    }

    /// Takes the pending attempt, which is consumed whatever the outcome,
    /// and checks the state that came back with the redirect.
    pub fn take_pending_pkce(&mut self, returned_state: &str) -> (r: Result<PkceData, AuthError>)
        ensures
            final(self).pending_pkce is None,
            final(self).config == old(self).config,
            final(self).current_auth == old(self).current_auth,
            old(self).pending_pkce is None ==> r matches Err(AuthError::InvalidPkceState),
            old(self).pending_pkce matches Some(p) ==> (p.state@ == returned_state@ ==> r
                == Ok::<PkceData, AuthError>(p)),
            old(self).pending_pkce matches Some(p) ==> (p.state@ != returned_state@ ==> (r matches Err(
                AuthError::InvalidPkceState,
            ))),
    {
        let pending = self.pending_pkce.take();
        match pending {
            None => Err(AuthError::InvalidPkceState),
            Some(p) => {
                if str_eq(p.state.as_str(), returned_state) {
                    Ok(p)
                } else {
                    Err(AuthError::InvalidPkceState)
                }
            },
        }
    }

    /// The form of the code exchange for a taken attempt.
    pub fn exchange_form(&self, code: &str, redirect_uri: &str, pkce: &PkceData) -> (r: Vec<(String, String)>)
        ensures
            r.deep_view() == code_exchange_fields(
                code@,
                redirect_uri@,
                self.config.client_id@,
                pkce.verifier@,
            ),
    {
        code_exchange_form(code, redirect_uri, self.config.client_id.as_str(), pkce.verifier.as_str())
    }

    /// The form of a refresh of `state`.
    pub fn refresh_request_form(&self, state: &AuthState) -> (r: Vec<(String, String)>)
        ensures
            r.deep_view() == refresh_fields(state.tokens.refresh_token@, self.config.client_id@),
    {
        refresh_form(state.tokens.refresh_token.as_str(), self.config.client_id.as_str())
    }

    /// Caches credentials that were just persisted and returns their
    /// session.
    pub fn install_auth(&mut self, state: AuthState) -> (r: AuthSession)
        requires
            state.wf(),
        ensures
            final(self).current_auth == Some(state),
            final(self).config == old(self).config,
            final(self).pending_pkce == old(self).pending_pkce,
            r.presents(state),
            final(self).wf(),
    {
        let session = AuthSession::from_state(&state);
        self.current_auth = Some(state);
        session
    }

    /// The credentials to refresh: the cached ones, else the outcome of
    /// loading the store (`stored`). No stored credentials is "not
    /// authenticated"; a failed load is passed on, never read as absence.
    pub fn auth_for_refresh(&self, stored: Result<Option<AuthState>, AuthError>) -> (r: Result<AuthState, AuthError>)
        requires
            self.wf(),
            stored matches Ok(Some(s)) ==> s.wf(),
        ensures
            self.current_auth matches Some(a) ==> (r matches Ok(x) && x.same(a)),
            self.current_auth is None ==> (stored matches Ok(Some(s)) ==> r == Ok::<AuthState, AuthError>(s)),
            self.current_auth is None ==> (stored matches Ok(None) ==> (r matches Err(AuthError::NotAuthenticated))),
            self.current_auth is None ==> (stored is Err ==> (r is Err && r->Err_0 == stored->Err_0)),
            r matches Ok(x) ==> x.wf(),
    {
        match &self.current_auth {
            Some(a) => Ok(a.duplicate()),
            None => match stored {
                Ok(Some(s)) => Ok(s),
                Ok(None) => Err(AuthError::NotAuthenticated),
                Err(e) => Err(e),
            },
        }
    }

    /// The credentials a session is built from: the cached ones, else the
    /// outcome of loading the store (`stored`), whose credentials are then
    /// cached. A failed load is passed on, never read as absence.
    pub fn current_or_stored(&mut self, stored: Result<Option<AuthState>, AuthError>) -> (r: Result<Option<AuthState>, AuthError>)
        requires
            old(self).wf(),
            stored matches Ok(Some(s)) ==> s.wf(),
        ensures
            old(self).current_auth matches Some(a) ==> (*final(self) == *old(self) && (r matches Ok(Some(x))
                && x.same(a))),
            old(self).current_auth is None && stored is Err ==> (*final(self) == *old(self) && r is Err
                && r->Err_0 == stored->Err_0),
            old(self).current_auth is None && stored is Ok ==> final(self).current_auth == stored->Ok_0,
            old(self).current_auth is None ==> (stored matches Ok(None) ==> (r matches Ok(None))),
            old(self).current_auth is None ==> (stored matches Ok(Some(s)) ==> (r matches Ok(Some(x))
                && x.same(s))),
            final(self).config == old(self).config,
            final(self).pending_pkce == old(self).pending_pkce,
            final(self).wf(),
            r matches Ok(Some(x)) ==> x.wf(),
    {
        match &self.current_auth {
            Some(a) => Ok(Some(a.duplicate())),
            None => {
                let loaded = match stored {
                    Ok(l) => l,
                    Err(e) => {
                        return Err(e);
                    },
                };
                let r = match &loaded {
                    Some(s) => Some(s.duplicate()),
                    None => None,
                };
                self.current_auth = loaded;
                Ok(r)
            },
        }
    }

    /// Forgets the cached credentials, once the stored ones are deleted.
    pub fn clear_session(&mut self)
        ensures
            final(self).current_auth is None,
            final(self).config == old(self).config,
            final(self).pending_pkce == old(self).pending_pkce,
    {
        self.current_auth = None;
    }

    /// Whether credentials exist, cached or stored; not whether they are
    /// valid.
    pub fn is_authenticated(&self) -> (r: bool)
        ensures
            self.current_auth is Some ==> r,
    {
        self.current_auth.is_some() || has_auth_state()
    }
}

} // verus!
