use spotify_auth::session::{
    access_token_of, code_exchange_form, decide_session, exchange_failed, new_auth_state,
    profile_failed, refresh_failed, refresh_form, refreshed_auth_state, session_after_refresh,
    tokens_from_exchange, tokens_from_refresh, AppAuthState, SessionDecision, SpotifyConfig,
    REFRESH_LOOKAHEAD_SECS,
};
use spotify_auth::types::{
    AuthError, AuthSession, AuthState, PkceData, SpotifyTokenResponse, SpotifyTokens, SpotifyUser,
};

fn user(product: Option<&str>) -> SpotifyUser {
    SpotifyUser {
        id: "u1".to_string(),
        display_name: Some("Ann".to_string()),
        email: None,
        images: vec![],
        product: product.map(|p| p.to_string()),
        country: Some("SE".to_string()),
    }
}

fn tokens(access: &str, expires_at: i64) -> SpotifyTokens {
    SpotifyTokens {
        access_token: access.to_string(),
        refresh_token: "r1".to_string(),
        token_type: "Bearer".to_string(),
        expires_at,
        scope: "streaming".to_string(),
    }
}

fn response(access: &str, refresh: Option<&str>, expires_in: i64) -> SpotifyTokenResponse {
    SpotifyTokenResponse {
        access_token: access.to_string(),
        token_type: "Bearer".to_string(),
        scope: "streaming".to_string(),
        expires_in,
        refresh_token: refresh.map(|r| r.to_string()),
    }
}

fn pkce(state: &str) -> PkceData {
    PkceData {
        verifier: "verifier".to_string(),
        challenge: "challenge".to_string(),
        state: state.to_string(),
    }
}

#[test]
fn expiry_checks_at_boundaries() {
    let t = tokens("a", 1000);
    assert!(!t.is_expired_at(999));
    assert!(t.is_expired_at(1000));
    assert!(t.is_expired_at(1001));
    assert!(t.expires_within_at(700, 300));
    assert!(!t.expires_within_at(699, 300));
    assert!(!t.expires_within_at(i64::MIN, i64::MIN));
    assert!(t.expires_within_at(i64::MAX, i64::MAX));
}

#[test]
fn clock_based_expiry_checks() {
    let t = tokens("a", 0);
    assert!(t.is_expired());
    assert!(t.expires_within(0));
    let far = tokens("a", 4_000_000_000_000);
    assert!(!far.is_expired());
    assert!(!far.expires_within(300));
}

#[test]
fn mismatched_state_consumes_pending_attempt() {
    let mut app = AppAuthState::new(SpotifyConfig::default());
    let url = app.begin_authorization(pkce("S1"), "http://127.0.0.1:8888/callback");
    assert!(url.is_ok());
    assert!(app.pending_pkce.is_some());
    let r = app.take_pending_pkce("S2");
    assert!(matches!(r, Err(AuthError::InvalidPkceState)));
    assert!(app.pending_pkce.is_none());
    let r = app.take_pending_pkce("S1");
    assert!(matches!(r, Err(AuthError::InvalidPkceState)));
}

#[test]
fn matching_state_returns_pending_attempt_once() {
    let mut app = AppAuthState::new(SpotifyConfig::default());
    app.begin_authorization(pkce("S1"), "r").unwrap();
    let p = app.take_pending_pkce("S1").unwrap();
    assert_eq!(p.verifier, "verifier");
    assert!(matches!(app.take_pending_pkce("S1"), Err(AuthError::InvalidPkceState)));
}

#[test]
fn new_attempt_replaces_pending_one() {
    let mut app = AppAuthState::new(SpotifyConfig::default());
    app.begin_authorization(pkce("S1"), "r").unwrap();
    app.begin_loopback_authorization(pkce("S2")).unwrap();
    assert!(matches!(app.take_pending_pkce("S1"), Err(AuthError::InvalidPkceState)));
    app.begin_authorization(pkce("S1"), "r").unwrap();
    app.begin_loopback_authorization(pkce("S2")).unwrap();
    assert!(app.take_pending_pkce("S2").is_ok());
}

#[test]
fn auth_url_needs_client_id() {
    let mut config = SpotifyConfig::default();
    config.client_id = String::new();
    let mut app = AppAuthState::new(config);
    let r = app.get_auth_url();
    match r {
        Err(AuthError::SpotifyError(m)) => assert_eq!(m, "Client ID not configured"),
        other => panic!("unexpected {:?}", other),
    }
    assert!(app.pending_pkce.is_none());
}

#[test]
fn auth_url_carries_pending_challenge_and_state() {
    let mut app = AppAuthState::new(SpotifyConfig::from_settings(
        Some("cid".to_string()),
        Some("http://localhost/cb".to_string()),
    ));
    let url = app.get_auth_url().unwrap();
    let p = app.pending_pkce.clone().unwrap();
    assert!(url.starts_with(
        "https://accounts.spotify.com/authorize?client_id=cid&response_type=code\
         &redirect_uri=http%3A%2F%2Flocalhost%2Fcb&scope=user-read-private%20user-read-email"
    ));
    assert!(url.ends_with(&format!(
        "&code_challenge_method=S256&code_challenge={}&state={}",
        p.challenge, p.state
    )));
}

#[test]
fn loopback_url_uses_fixed_redirect() {
    let mut app = AppAuthState::new(SpotifyConfig::from_settings(
        None,
        Some("http://elsewhere/cb".to_string()),
    ));
    let url = app.begin_loopback_authorization(pkce("S")).unwrap();
    assert!(url.contains("&redirect_uri=http%3A%2F%2F127.0.0.1%3A8888%2Fcallback&"));
}

#[test]
fn config_defaults() {
    let c = SpotifyConfig::default();
    assert_eq!(c.client_id, "a53c8535d69c4f0d9109b007bf10ca2d");
    assert_eq!(c.redirect_uri, "http://127.0.0.1:8888/callback");
    assert_eq!(c.scopes.len(), 16);
    assert_eq!(c.scopes[15], "streaming");
    let c = SpotifyConfig::from_settings(Some("x".to_string()), None);
    assert_eq!(c.client_id, "x");
}

#[test]
fn exchange_form_fields() {
    let f = code_exchange_form("abc", "http://r", "cid", "ver");
    assert_eq!(
        f,
        vec![
            ("grant_type".to_string(), "authorization_code".to_string()),
            ("code".to_string(), "abc".to_string()),
            ("redirect_uri".to_string(), "http://r".to_string()),
            ("client_id".to_string(), "cid".to_string()),
            ("code_verifier".to_string(), "ver".to_string()),
        ]
    );
    let f = refresh_form("rt", "cid");
    assert_eq!(
        f,
        vec![
            ("grant_type".to_string(), "refresh_token".to_string()),
            ("refresh_token".to_string(), "rt".to_string()),
            ("client_id".to_string(), "cid".to_string()),
        ]
    );
}

#[test]
fn exchange_tokens_expire_after_lifetime() {
    let t = tokens_from_exchange(response("acc", Some("ref"), 3600), 1_000).unwrap();
    assert_eq!(t.access_token, "acc");
    assert_eq!(t.refresh_token, "ref");
    assert_eq!(t.expires_at, 4_600);
}

#[test]
fn exchange_without_refresh_token_fails() {
    let r = tokens_from_exchange(response("acc", None, 3600), 1_000);
    match r {
        Err(AuthError::SpotifyError(m)) => assert_eq!(m, "No refresh token received"),
        other => panic!("unexpected {:?}", other),
    }
    let r = tokens_from_exchange(response("acc", Some(""), 3600), 1_000);
    assert!(matches!(r, Err(AuthError::SpotifyError(_))));
}

#[test]
fn exchange_with_absurd_lifetime_fails() {
    let r = tokens_from_exchange(response("acc", Some("r"), i64::MAX), 1_000);
    assert!(matches!(r, Err(AuthError::SpotifyError(_))));
}

#[test]
fn refresh_keeps_previous_refresh_token_when_absent() {
    let prev = "old-refresh".to_string();
    let t = tokens_from_refresh(response("a2", None, 60), &prev, 10).unwrap();
    assert_eq!(t.refresh_token, "old-refresh");
    assert_eq!(t.access_token, "a2");
    assert_eq!(t.expires_at, 70);
    let t = tokens_from_refresh(response("a3", Some("new"), 60), &prev, 10).unwrap();
    assert_eq!(t.refresh_token, "new");
}

#[test]
fn login_and_refresh_states() {
    let s = new_auth_state(tokens("a", 500), user(None), 100);
    assert_eq!(s.created_at, 100);
    assert_eq!(s.last_refresh, 100);
    let r = refreshed_auth_state(s, tokens("b", 900), 400);
    assert_eq!(r.created_at, 100);
    assert_eq!(r.last_refresh, 400);
    assert_eq!(r.tokens.access_token, "b");
    assert_eq!(r.user.id, "u1");
}

#[test]
fn premium_flag_follows_product() {
    let s = new_auth_state(tokens("a", 500), user(Some("premium")), 0);
    assert!(AuthSession::from_state(&s).is_premium);
    let s = new_auth_state(tokens("a", 500), user(Some("free")), 0);
    assert!(!AuthSession::from_state(&s).is_premium);
    let s = new_auth_state(tokens("a", 500), user(Some("Premium")), 0);
    assert!(!AuthSession::from_state(&s).is_premium);
    let s = new_auth_state(tokens("a", 500), user(None), 0);
    assert!(!AuthSession::from_state(&s).is_premium);
}

#[test]
fn session_shows_expiry_as_rfc3339() {
    let s = new_auth_state(tokens("acc", 0), user(None), 0);
    let session = AuthSession::from_state(&s);
    assert_eq!(session.expires_at, "1970-01-01T00:00:00+00:00");
    assert_eq!(session.access_token, "acc");
    assert_eq!(session.user.id, "u1");
}

#[test]
fn refresh_triggered_near_expiry_returns_refreshed_session() {
    let now = 1_000_000;
    let mut app = AppAuthState::new(SpotifyConfig::default());
    let old = new_auth_state(tokens("old", now + 60), user(Some("premium")), now - 10);
    app.install_auth(old.clone());
    let found = app.current_or_stored(Ok(None)).unwrap().unwrap();
    assert!(matches!(decide_session(Some(&found), now), SessionDecision::Refresh));

    let previous = app.auth_for_refresh(Ok(None)).unwrap();
    let form = app.refresh_request_form(&previous);
    assert_eq!(form[1].1, "r1");
    let t = tokens_from_refresh(response("new", None, 3600), &previous.tokens.refresh_token, now)
        .unwrap();
    let refreshed = refreshed_auth_state(previous, t, now);
    let session = app.install_auth(refreshed);
    let r = session_after_refresh(&found, now, Ok(session)).unwrap().unwrap();
    assert_eq!(r.access_token, "new");
    assert!(r.is_premium);
    assert_eq!(app.current_auth.as_ref().unwrap().tokens.access_token, "new");
    assert_eq!(app.current_auth.as_ref().unwrap().tokens.expires_at, now + 3600);
    assert_eq!(app.current_auth.as_ref().unwrap().created_at, now - 10);
}

#[test]
fn fresh_token_is_returned_without_refresh() {
    let now = 1_000;
    let s = new_auth_state(tokens("acc", now + REFRESH_LOOKAHEAD_SECS + 1), user(None), 0);
    match decide_session(Some(&s), now) {
        SessionDecision::Ready(x) => assert_eq!(x.access_token, "acc"),
        other => panic!("unexpected {:?}", other),
    }
    let s = new_auth_state(tokens("acc", now + REFRESH_LOOKAHEAD_SECS), user(None), 0);
    assert!(matches!(decide_session(Some(&s), now), SessionDecision::Refresh));
    assert!(matches!(decide_session(None, now), SessionDecision::NoSession));
}

#[test]
fn failed_refresh_falls_back_until_expiry() {
    let s = new_auth_state(tokens("acc", 1_000), user(None), 0);
    let r = session_after_refresh(&s, 999, Err(AuthError::RefreshFailed("x".to_string())));
    assert_eq!(r.unwrap().unwrap().access_token, "acc");
    let r = session_after_refresh(&s, 1_000, Err(AuthError::RefreshFailed("x".to_string())));
    assert!(matches!(r, Err(AuthError::TokenExpired)));
}

#[test]
fn refresh_needs_some_credentials() {
    let app = AppAuthState::new(SpotifyConfig::default());
    assert!(matches!(app.auth_for_refresh(Ok(None)), Err(AuthError::NotAuthenticated)));
    let stored = new_auth_state(tokens("s", 10), user(None), 0);
    assert_eq!(app.auth_for_refresh(Ok(Some(stored))).unwrap().tokens.access_token, "s");
    let r = app.auth_for_refresh(Err(AuthError::StorageError("corrupt".to_string())));
    assert!(matches!(r, Err(AuthError::StorageError(_))));
}

#[test]
fn stored_credentials_are_cached_on_lookup() {
    let mut app = AppAuthState::new(SpotifyConfig::default());
    assert!(app.current_or_stored(Ok(None)).unwrap().is_none());
    let stored = new_auth_state(tokens("s", 10), user(None), 0);
    let r = app.current_or_stored(Ok(Some(stored))).unwrap().unwrap();
    assert_eq!(r.tokens.access_token, "s");
    assert!(app.current_auth.is_some());
    assert!(app.is_authenticated());
    app.clear_session();
    assert!(app.current_auth.is_none());
}

#[test]
fn access_token_lookup() {
    let s = new_auth_state(tokens("acc", 10), user(None), 0);
    let session = AuthSession::from_state(&s);
    assert_eq!(access_token_of(Ok(Some(session))).unwrap(), "acc");
    assert!(matches!(access_token_of(Ok(None)), Err(AuthError::NotAuthenticated)));
    assert!(matches!(
        access_token_of(Err(AuthError::TokenExpired)),
        Err(AuthError::TokenExpired)
    ));
}

#[test]
fn error_messages() {
    assert_eq!(AuthError::NotAuthenticated.message(), "Not authenticated");
    assert_eq!(AuthError::TokenExpired.message(), "Token expired");
    assert_eq!(AuthError::InvalidPkceState.message(), "Invalid PKCE state");
    assert_eq!(
        AuthError::RefreshFailed("x".to_string()).message(),
        "Failed to refresh token: x"
    );
    assert_eq!(AuthError::SpotifyError("x".to_string()).message(), "Spotify API error: x");
    assert_eq!(AuthError::EncryptionError("x".to_string()).message(), "Encryption error: x");
    assert_eq!(AuthError::StorageError("x".to_string()).message(), "Storage error: x");
    assert_eq!(AuthError::HttpError("x".to_string()).message(), "HTTP error: x");
    assert_eq!(exchange_failed("b").message(), "Spotify API error: Token exchange failed: b");
    assert_eq!(refresh_failed("b").message(), "Failed to refresh token: b");
    assert_eq!(
        profile_failed("b").message(),
        "Spotify API error: Failed to fetch user profile: b"
    );
}

#[test]
fn auth_state_clone_keeps_fields() {
    let s: AuthState = new_auth_state(tokens("acc", 10), user(Some("premium")), 3);
    let c = s.duplicate();
    assert_eq!(c.tokens.access_token, "acc");
    assert_eq!(c.user.product, Some("premium".to_string()));
    assert_eq!(c.created_at, 3);
}

#[test]
fn corrupt_store_surfaces_on_session_lookup() {
    let mut app = AppAuthState::new(SpotifyConfig::default());
    let r = app.current_or_stored(Err(AuthError::StorageError("bad file".to_string())));
    match r {
        Err(AuthError::StorageError(m)) => assert_eq!(m, "bad file"),
        other => panic!("unexpected {:?}", other),
    }
    assert!(app.current_auth.is_none());
    let cached = new_auth_state(tokens("c", 10), user(None), 0);
    app.install_auth(cached);
    let r = app.current_or_stored(Err(AuthError::StorageError("ignored".to_string())));
    assert_eq!(r.unwrap().unwrap().tokens.access_token, "c");
}

#[test]
fn unconfigured_client_texts() {
    let mut config = SpotifyConfig::default();
    config.client_id = String::new();
    let mut app = AppAuthState::new(config);
    match app.ensure_configured() {
        Err(AuthError::SpotifyError(m)) => assert_eq!(m, "Client ID not configured"),
        other => panic!("unexpected {:?}", other),
    }
    match app.begin_loopback_authorization(pkce("S")) {
        Err(AuthError::SpotifyError(m)) => assert_eq!(m, "Client ID not configured"),
        other => panic!("unexpected {:?}", other),
    }
    assert!(app.pending_pkce.is_none());
}

#[test]
fn lifetime_error_text() {
    match tokens_from_exchange(response("a", Some("r"), i64::MAX), 0) {
        Err(AuthError::SpotifyError(m)) => assert_eq!(m, "Invalid token lifetime"),
        other => panic!("unexpected {:?}", other),
    }
    match tokens_from_refresh(response("a", None, i64::MIN), &"r".to_string(), -1) {
        Err(AuthError::SpotifyError(m)) => assert_eq!(m, "Invalid token lifetime"),
        other => panic!("unexpected {:?}", other),
    }
}
