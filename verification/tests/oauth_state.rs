use gphotos_mcp_rust::auth::{
    access_token_step_at, epoch_seconds, now_epoch, random_state, scope_param, AccessTokenStep, AuthError, AuthStatus, OAuthManager,
    StoredTokens, TokenInfo, TokenResponse,
};
use gphotos_mcp_rust::config::Config;
use gphotos_mcp_rust::state::AuthState;
use gphotos_mcp_rust::urls::query_value;

fn test_config(oauth_base: &str) -> Config {
    Config {
        host: "127.0.0.1".to_string(),
        port: 0,
        google_client_id: "test-client".to_string(),
        google_client_secret: "test-secret".to_string(),
        google_redirect_uri: "http://localhost:3000/auth/callback".to_string(),
        token_path: "tokens.json".to_string(),
        google_photos_base_url: "http://localhost:1".to_string(),
        google_photos_picker_base_url: "http://localhost:1".to_string(),
        google_oauth_base_url: oauth_base.to_string(),
    }
}

fn state_of(auth_url: &str) -> String {
    query_value(auth_url, "state").expect("state in url")
}

fn tokens(expires_at: i64, refresh: &str) -> StoredTokens {
    StoredTokens {
        access_token: "access".to_string(),
        refresh_token: refresh.to_string(),
        token_type: Some("Bearer".to_string()),
        scope: None,
        expires_at_epoch: expires_at,
        retrieved_at_epoch: 0,
        user_email: Some("me@example.com".to_string()),
        user_id: Some("42".to_string()),
    }
}

#[test]
fn oauth_state_is_single_use() {
    let mut manager = OAuthManager::new(test_config("http://127.0.0.1:9"));
    let auth_url = manager.start_auth().expect("auth url");
    let state = state_of(&auth_url);

    let first = manager.exchange_callback_code("good-code", &state);
    assert!(first.is_ok(), "first callback succeeds");
    let second = manager.exchange_callback_code("good-code", &state);
    assert!(second.is_err(), "state reuse must fail");
}

#[test]
fn exchange_request_carries_code_and_client() {
    let mut manager = OAuthManager::new(test_config("http://oauth.test"));
    let url = manager.start_auth_at(1_000, "S".repeat(40)).expect("url");
    assert_eq!(state_of(&url), "S".repeat(40));
    let req = manager.exchange_callback_code_at("good-code", &"S".repeat(40), 1_100).expect("accepted");
    assert_eq!(req.url, "http://oauth.test/token");
    let form: Vec<(&str, &str)> = req.form.iter().map(|(k, v)| (k.as_str(), v.as_str())).collect();
    assert_eq!(
        form,
        vec![
            ("code", "good-code"),
            ("client_id", "test-client"),
            ("client_secret", "test-secret"),
            ("redirect_uri", "http://localhost:3000/auth/callback"),
            ("grant_type", "authorization_code"),
        ]
    );
}

#[test]
fn state_is_refused_after_ten_minutes() {
    let mut manager = OAuthManager::new(test_config("http://oauth.test"));
    manager.start_auth_at(1_000, "abc".to_string()).expect("url");
    assert!(matches!(
        manager.exchange_callback_code_at("c", "abc", 1_600),
        Err(AuthError::InvalidState)
    ));
}

#[test]
fn state_is_accepted_just_before_expiry() {
    let mut manager = OAuthManager::new(test_config("http://oauth.test"));
    manager.start_auth_at(1_000, "abc".to_string()).expect("url");
    assert!(manager.consume_valid_state_at("abc", 1_599));
    assert!(!manager.consume_valid_state_at("abc", 1_599));
}

#[test]
fn unknown_state_is_refused() {
    let mut manager = OAuthManager::new(test_config("http://oauth.test"));
    assert!(!manager.consume_valid_state_at("never-issued", 0));
}

#[test]
fn auth_state_keeps_other_states() {
    let mut s = AuthState::new();
    s.register("one".to_string(), 100, 0);
    s.register("two".to_string(), 200, 10);
    assert!(s.consume("one", 50));
    assert!(s.consume("two", 150));
    assert!(!s.consume("two", 150));
    s.register("three".to_string(), 300, 0);
    s.retain_unexpired(300);
    assert!(!s.consume("three", 0));
    s.insert("four".to_string(), 10);
    assert_eq!(s.remove("four"), Some(10));
    assert_eq!(s.remove("four"), None);
}

#[test]
fn random_state_is_forty_alphanumerics() {
    let a = random_state();
    let b = random_state();
    assert_eq!(a.chars().count(), 40);
    assert!(a.chars().all(|c| c.is_ascii_alphanumeric()));
    assert_ne!(a, b);
}

#[test]
fn authorization_url_lists_the_parameters() {
    let mut manager = OAuthManager::new(test_config("http://oauth.test"));
    let url = manager.start_auth_at(5, "xyz".to_string()).expect("url");
    assert!(url.starts_with("https://accounts.google.com/o/oauth2/v2/auth?response_type=code&client_id=test-client&"));
    let parsed = url::Url::parse(&url).unwrap();
    let pairs: Vec<(String, String)> = parsed.query_pairs().map(|(k, v)| (k.to_string(), v.to_string())).collect();
    let scope = scope_param();
    let expected = vec![
        ("response_type", "code"),
        ("client_id", "test-client"),
        ("redirect_uri", "http://localhost:3000/auth/callback"),
        ("scope", scope.as_str()),
        ("access_type", "offline"),
        ("prompt", "consent"),
        ("state", "xyz"),
    ];
    let expected: Vec<(String, String)> = expected.into_iter().map(|(k, v)| (k.to_string(), v.to_string())).collect();
    assert_eq!(pairs, expected);
}

#[test]
fn scopes_are_joined_by_spaces() {
    assert_eq!(
        scope_param(),
        "https://www.googleapis.com/auth/photoslibrary.readonly https://www.googleapis.com/auth/photoslibrary.readonly.appcreateddata https://www.googleapis.com/auth/photoslibrary.appendonly https://www.googleapis.com/auth/photoslibrary.edit.appcreateddata https://www.googleapis.com/auth/photospicker.mediaitems.readonly openid email profile"
    );
}

#[test]
fn tokens_expire_a_minute_early() {
    let t = tokens(1_000, "r");
    assert!(!t.is_expired_at(939));
    assert!(t.is_expired_at(940));
    assert!(t.is_expired_at(2_000));
    let far = tokens(i64::MIN + 10, "r");
    assert!(far.is_expired_at(i64::MIN));
    assert!(!tokens(i64::MAX, "r").is_expired());
}

#[test]
fn exchange_answer_becomes_stored_tokens() {
    let resp = TokenResponse {
        access_token: "abc".to_string(),
        refresh_token: None,
        token_type: Some("Bearer".to_string()),
        scope: Some("openid email profile".to_string()),
        expires_in: 3600,
        id_token: Some("id".to_string()),
    };
    let t = StoredTokens::from_exchange(&resp, 100);
    assert_eq!(t.access_token, "abc");
    assert_eq!(t.refresh_token, "");
    assert_eq!(t.expires_at_epoch, 3700);
    assert_eq!(t.retrieved_at_epoch, 100);
    assert_eq!(t.user_email, None);
    let t = t.with_token_info(TokenInfo { email: Some("me@example.com".to_string()), sub: Some("7".to_string()) });
    assert_eq!(t.user_email.as_deref(), Some("me@example.com"));
    assert_eq!(t.user_id.as_deref(), Some("7"));
    assert_eq!(t.access_token, "abc");
}

#[test]
fn refresh_keeps_the_old_refresh_token_and_user() {
    let resp = TokenResponse {
        access_token: "new".to_string(),
        refresh_token: None,
        token_type: None,
        scope: None,
        expires_in: 60,
        id_token: None,
    };
    let current = Some(tokens(5, "old-refresh"));
    let t = StoredTokens::refreshed(&resp, &current, 1_000);
    assert_eq!(t.access_token, "new");
    assert_eq!(t.refresh_token, "old-refresh");
    assert_eq!(t.expires_at_epoch, 1_060);
    assert_eq!(t.user_email.as_deref(), Some("me@example.com"));
    assert_eq!(t.user_id.as_deref(), Some("42"));
    let none = StoredTokens::refreshed(&resp, &None, 1_000);
    assert_eq!(none.refresh_token, "");
    assert_eq!(none.user_email, None);
    let with = TokenResponse { refresh_token: Some("fresh".to_string()), ..resp };
    assert_eq!(StoredTokens::refreshed(&with, &current, 0).refresh_token, "fresh");
}

#[test]
fn access_token_steps() {
    assert!(matches!(access_token_step_at(None, 0), AccessTokenStep::Fail(AuthError::NotAuthenticated)));
    match access_token_step_at(Some(tokens(1_000, "r")), 0) {
        AccessTokenStep::Ready(a) => assert_eq!(a, "access"),
        _ => panic!("fresh token is used as is"),
    }
    match access_token_step_at(Some(tokens(1_000, "r")), 999) {
        AccessTokenStep::Refresh(r) => assert_eq!(r, "r"),
        _ => panic!("expired token is refreshed"),
    }
    assert!(matches!(
        access_token_step_at(Some(tokens(1_000, "")), 999),
        AccessTokenStep::Fail(AuthError::NoRefreshToken)
    ));
    assert_eq!(AuthError::NoRefreshToken.message(), "Access token expired and no refresh token available");
    assert_eq!(AuthError::NotAuthenticated.message(), "Not authenticated. Run start_auth first.");
    assert_eq!(AuthError::InvalidState.message(), "Invalid OAuth state");
}

#[test]
fn auth_status_reports_tokens() {
    let s = AuthStatus::from_tokens_at(None, 0);
    assert!(!s.authenticated && !s.expired && s.expires_at_epoch.is_none() && s.user_email.is_none());
    let u = AuthStatus::unauthenticated();
    assert!(!u.authenticated);
    let s = AuthStatus::from_tokens_at(Some(tokens(1_000, "r")), 2_000);
    assert!(s.authenticated);
    assert!(s.expired);
    assert_eq!(s.expires_at_epoch, Some(1_000));
    assert_eq!(s.user_email.as_deref(), Some("me@example.com"));
    let manager = OAuthManager::new(test_config("http://oauth.test"));
    assert!(manager.auth_status(Some(tokens(i64::MAX, "r"))).authenticated);
    assert!(!manager.auth_status(Some(tokens(i64::MAX, "r"))).expired);
}

#[test]
fn refresh_and_token_info_requests() {
    let manager = OAuthManager::new(test_config("http://oauth.test"));
    let r = manager.refresh_request("rt");
    assert_eq!(r.url, "http://oauth.test/token");
    assert_eq!(r.form[0], ("refresh_token".to_string(), "rt".to_string()));
    assert_eq!(r.form[3], ("grant_type".to_string(), "refresh_token".to_string()));
    assert_eq!(r.form.len(), 4);
    let i = manager.token_info_request("idt");
    assert_eq!(i.url, "http://oauth.test/tokeninfo");
    assert_eq!(i.form, vec![("id_token".to_string(), "idt".to_string())]);
    assert_eq!(manager.token_url(), "http://oauth.test/token");
}

#[test]
fn new_tokens_are_used_as_they_are() {
    let resp = TokenResponse {
        access_token: "fresh".to_string(),
        refresh_token: Some("r".to_string()),
        token_type: None,
        scope: None,
        expires_in: 3600,
        id_token: None,
    };
    let t = StoredTokens::from_exchange(&resp, 10_000);
    assert!(!t.is_expired_at(10_000));
    match access_token_step_at(Some(t), 10_000) {
        AccessTokenStep::Ready(a) => assert_eq!(a, "fresh"),
        _ => panic!("fresh tokens are used"),
    }
}

#[test]
fn epoch_seconds_are_cut_to_i64() {
    assert_eq!(epoch_seconds(None), 0);
    assert_eq!(epoch_seconds(Some(1_700_000_000)), 1_700_000_000);
    assert_eq!(epoch_seconds(Some(u64::MAX)), -1);
    assert!(now_epoch() > 1_600_000_000);
}

#[test]
fn authorization_url_state_is_the_pending_one() {
    let mut manager = OAuthManager::new(test_config("http://oauth.test"));
    let url = manager.start_auth().expect("url");
    let state = state_of(&url);
    assert_eq!(state.chars().count(), 40);
    assert!(manager.consume_valid_state(&state));
}
