use prismoid::auth_error::AuthError;
use prismoid::manager::{
    classify_device_flow_error, classify_refresh_error, compute_expires_at_ms, expires_at_ms,
    handle_refresh_result, tokens_from_user_token, tokens_granted_at, twitch_manager,
    validate_identity, AuthManager, GrantedToken, LoadStep, REFRESH_THRESHOLD_MS,
};
use prismoid::store::{MemoryStore, TokenStore};
use prismoid::tokens::{TokensView, TwitchTokens};
use std::time::Duration;

/// A store whose writes fail.
struct Locked(MemoryStore);

impl TokenStore for Locked {
    fn entry(&self) -> Option<TokensView> {
        unreachable!()
    }
    fn load(&self) -> Result<Option<TwitchTokens>, AuthError> {
        self.0.load()
    }
    fn save(&mut self, _tokens: &TwitchTokens) -> Result<(), AuthError> {
        Err(AuthError::Config("locked".into()))
    }
    fn delete(&mut self) -> Result<(), AuthError> {
        Err(AuthError::Config("locked".into()))
    }
}

/// A store that cannot be read.
struct Broken;

impl TokenStore for Broken {
    fn entry(&self) -> Option<TokensView> {
        unreachable!()
    }
    fn load(&self) -> Result<Option<TwitchTokens>, AuthError> {
        Err(AuthError::Config("broken".into()))
    }
    fn save(&mut self, _tokens: &TwitchTokens) -> Result<(), AuthError> {
        Ok(())
    }
    fn delete(&mut self) -> Result<(), AuthError> {
        Ok(())
    }
}

fn sample_tokens() -> TwitchTokens {
    TwitchTokens {
        access_token: "at-new".into(),
        refresh_token: "rt-new".into(),
        expires_at_ms: 1_000_000,
        scopes: vec!["user:read:chat".into()],
        user_id: "570722168".into(),
        login: "impulseb23".into(),
    }
}

fn granted() -> GrantedToken {
    GrantedToken {
        access_token: "at".into(),
        refresh_token: Some("rt".into()),
        expires_in: Duration::from_secs(3600),
        scopes: vec!["a".into(), "b".into()],
        user_id: "1".into(),
        login: "me".into(),
    }
}

fn holding(tokens: &TwitchTokens) -> MemoryStore {
    let mut store = MemoryStore::default();
    store.save(tokens).unwrap();
    store
}

#[test]
fn classify_device_flow_error_maps_access_denied() {
    match classify_device_flow_error("access_denied") {
        AuthError::UserDenied => {}
        other => panic!("expected UserDenied, got {other:?}"),
    }
}

#[test]
fn classify_device_flow_error_maps_expired_token() {
    match classify_device_flow_error("expired_token while polling") {
        AuthError::DeviceCodeExpired => {}
        other => panic!("expected DeviceCodeExpired, got {other:?}"),
    }
}

#[test]
fn classify_device_flow_error_falls_through_to_oauth() {
    match classify_device_flow_error("some other failure") {
        AuthError::OAuth(s) => assert!(s.contains("some other failure")),
        other => panic!("expected OAuth, got {other:?}"),
    }
}

#[test]
fn classify_refresh_error_maps_invalid_grant() {
    match classify_refresh_error("invalid_grant") {
        AuthError::RefreshTokenInvalid => {}
        other => panic!("expected RefreshTokenInvalid, got {other:?}"),
    }
}

#[test]
fn classify_refresh_error_maps_invalid_refresh_token_phrase() {
    match classify_refresh_error("HTTP 400: Invalid refresh token") {
        AuthError::RefreshTokenInvalid => {}
        other => panic!("expected RefreshTokenInvalid, got {other:?}"),
    }
}

#[test]
fn classify_refresh_error_falls_through_to_oauth() {
    match classify_refresh_error("connection reset by peer") {
        AuthError::OAuth(s) => assert!(s.contains("connection reset")),
        other => panic!("expected OAuth, got {other:?}"),
    }
}

#[test]
fn classification_reads_what_the_error_displays() {
    assert!(matches!(classify_device_flow_error(7u8), AuthError::OAuth(s) if s == "7"));
    // Both words: the first one counts.
    assert!(matches!(
        classify_device_flow_error("expired_token, access_denied"),
        AuthError::UserDenied
    ));
    assert!(matches!(classify_refresh_error("invalid refresh token"), AuthError::OAuth(_)));
    assert!(matches!(classify_refresh_error("access_denied"), AuthError::OAuth(_)));
}

#[test]
fn compute_expires_at_ms_happy_path() {
    let got = compute_expires_at_ms(1_000, Duration::from_secs(3600));
    assert_eq!(got, 1_000 + 3_600_000);
}

#[test]
fn compute_expires_at_ms_zero_duration_returns_now() {
    let got = compute_expires_at_ms(12_345, Duration::from_secs(0));
    assert_eq!(got, 12_345);
}

#[test]
fn compute_expires_at_ms_saturates_on_duration_overflow() {
    let got = compute_expires_at_ms(0, Duration::MAX);
    assert_eq!(got, i64::MAX);
}

#[test]
fn compute_expires_at_ms_saturates_on_sum_overflow() {
    let got = compute_expires_at_ms(i64::MAX - 10, Duration::from_secs(3600));
    assert_eq!(got, i64::MAX);
}

#[test]
fn expiry_counts_whole_milliseconds() {
    assert_eq!(compute_expires_at_ms(-5, Duration::from_micros(1_999)), -4);
    assert_eq!(expires_at_ms(i64::MIN, u128::MAX), -1);
    assert_eq!(expires_at_ms(i64::MIN, 1), i64::MIN + 1);
    assert!(expires_at_ms(10, 5) <= expires_at_ms(10, 6));
}

#[test]
fn validate_identity_accepts_both_populated() {
    validate_identity("570722168", "impulseb23").expect("populated identity must pass");
}

#[test]
fn validate_identity_rejects_empty_user_id() {
    match validate_identity("", "impulseb23") {
        Err(AuthError::OAuth(s)) => assert!(s.contains("empty user_id or login")),
        other => panic!("expected OAuth, got {other:?}"),
    }
}

#[test]
fn validate_identity_rejects_empty_login() {
    match validate_identity("570722168", "") {
        Err(AuthError::OAuth(s)) => assert!(s.contains("empty user_id or login")),
        other => panic!("expected OAuth, got {other:?}"),
    }
}

#[test]
fn validate_identity_rejects_both_empty() {
    match validate_identity("", "") {
        Err(AuthError::OAuth(_)) => {}
        other => panic!("expected OAuth, got {other:?}"),
    }
}

#[test]
fn handle_refresh_result_persists_on_success() {
    let mut store = MemoryStore::default();
    let fresh = sample_tokens();
    let Ok(got) = handle_refresh_result(Ok(fresh.clone()), &mut store) else {
        panic!("expected tokens");
    };
    assert!(got == fresh);
    assert!(
        store.load().unwrap() == Some(fresh),
        "refreshed tokens must land in the store"
    );
}

#[test]
fn handle_refresh_result_deletes_on_refresh_token_invalid() {
    let mut store = MemoryStore::default();
    store.save(&sample_tokens()).unwrap();
    assert!(store.load().unwrap().is_some());

    let Err(err) = handle_refresh_result(Err(AuthError::RefreshTokenInvalid), &mut store) else {
        panic!("expected an error");
    };
    assert!(matches!(err, AuthError::RefreshTokenInvalid));
    assert!(
        store.load().unwrap().is_none(),
        "stale tokens must be evicted so that nobody retries against them"
    );
}

#[test]
fn handle_refresh_result_propagates_other_errors_without_touching_store() {
    let mut store = MemoryStore::default();
    store.save(&sample_tokens()).unwrap();

    let Err(err) = handle_refresh_result(Err(AuthError::OAuth("network".into())), &mut store)
    else {
        panic!("expected an error");
    };
    assert!(matches!(err, AuthError::OAuth(_)));
    assert!(
        store.load().unwrap().is_some(),
        "transient errors must not evict tokens: refresh might succeed next tick"
    );
}

#[test]
fn load_or_refresh_returns_no_tokens_when_store_empty() {
    let mgr = AuthManager::<MemoryStore>::builder("test-client-id").build(MemoryStore::default());

    match mgr.load_or_refresh() {
        Err(AuthError::NoTokens) => {}
        _ => panic!("expected NoTokens"),
    }
}

#[test]
fn load_or_refresh_returns_fresh_tokens_verbatim() {
    let mut mgr =
        AuthManager::<MemoryStore>::builder("test-client-id").build(MemoryStore::default());

    let fresh = TwitchTokens {
        access_token: "at-fresh".into(),
        refresh_token: "rt-fresh".into(),
        expires_at_ms: chrono::Utc::now().timestamp_millis() + 60 * 60 * 1000,
        scopes: vec!["user:read:chat".into()],
        user_id: "570722168".into(),
        login: "impulseb23".into(),
    };
    mgr.store.save(&fresh).unwrap();

    match mgr.load_or_refresh() {
        Ok(LoadStep::Ready(got)) => assert!(got == fresh),
        _ => panic!("expected the tokens"),
    }
}

#[test]
fn load_or_refresh_reads_the_clock() {
    let mut stale = sample_tokens();
    stale.expires_at_ms = chrono::Utc::now().timestamp_millis() + 60 * 1000;
    let mgr = AuthManager::<MemoryStore>::builder("c").build(holding(&stale));
    assert!(matches!(mgr.load_or_refresh(), Ok(LoadStep::Refresh(got)) if got == stale));
}

#[test]
fn tokens_are_refreshed_within_the_threshold() {
    let tokens = sample_tokens();
    let mgr = AuthManager::<MemoryStore>::builder("c").build(holding(&tokens));
    let edge = tokens.expires_at_ms - REFRESH_THRESHOLD_MS;
    assert_eq!(REFRESH_THRESHOLD_MS, 5 * 60 * 1000);
    assert!(matches!(mgr.load_or_refresh_at(edge - 1), Ok(LoadStep::Ready(got)) if got == tokens));
    assert!(matches!(mgr.load_or_refresh_at(edge), Ok(LoadStep::Refresh(got)) if got == tokens));
    assert!(matches!(mgr.load_or_refresh_at(i64::MAX), Ok(LoadStep::Refresh(_))));
    assert!(matches!(mgr.load_or_refresh_at(i64::MIN), Ok(LoadStep::Ready(_))));
    let mut saturated = sample_tokens();
    saturated.expires_at_ms = i64::MAX;
    assert!(!saturated.needs_refresh(i64::MAX - REFRESH_THRESHOLD_MS - 1, REFRESH_THRESHOLD_MS));
}

#[test]
fn missing_scopes_are_listed_in_order() {
    let mgr = AuthManager::<MemoryStore>::builder("c")
        .scope("chat:edit")
        .scope("user:read:chat")
        .scope("moderator:manage:banned_users")
        .build(holding(&sample_tokens()));
    match mgr.load_or_refresh_at(0) {
        Err(AuthError::Config(text)) => assert_eq!(
            text,
            "stored Twitch token is missing required scopes: chat:edit, moderator:manage:banned_users; sign in again"
        ),
        _ => panic!("expected Config"),
    }
    assert!(matches!(mgr.peek_login(), Ok(None)));

    let one = AuthManager::<MemoryStore>::builder("c").scope("x").build(holding(&sample_tokens()));
    match one.ensure_required_scopes(&sample_tokens()) {
        Err(AuthError::Config(text)) => assert_eq!(
            text,
            "stored Twitch token is missing required scopes: x; sign in again"
        ),
        _ => panic!("expected Config"),
    }

    let fine = AuthManager::<MemoryStore>::builder("id")
        .scope("user:read:chat")
        .build(holding(&sample_tokens()));
    assert_eq!(fine.client_id, "id");
    assert_eq!(fine.scopes, vec!["user:read:chat".to_string()]);
    assert!(fine.ensure_required_scopes(&sample_tokens()).is_ok());
    assert_eq!(fine.peek_login().unwrap(), Some("impulseb23".to_string()));
}

#[test]
fn a_store_that_cannot_be_read_is_reported() {
    let mgr = AuthManager::<Broken>::builder("c").build(Broken);
    assert!(matches!(mgr.load_or_refresh_at(0), Err(AuthError::Config(s)) if s == "broken"));
    assert!(matches!(mgr.peek_login(), Err(AuthError::Config(s)) if s == "broken"));
}

#[test]
fn a_store_that_cannot_be_written_is_reported_but_for_evictions() {
    let mut mgr = AuthManager::<Locked>::builder("c").build(Locked(holding(&sample_tokens())));
    assert!(matches!(
        mgr.finish_refresh(Ok(sample_tokens())),
        Err(AuthError::Config(s)) if s == "locked"
    ));
    assert!(matches!(
        mgr.finish_refresh(Err(AuthError::RefreshTokenInvalid)),
        Err(AuthError::RefreshTokenInvalid)
    ));
    assert!(matches!(mgr.logout(), Err(AuthError::Config(s)) if s == "locked"));
    assert!(matches!(
        mgr.complete_device_flow::<String>(Ok(granted())),
        Err(AuthError::Config(s)) if s == "locked"
    ));
}

#[test]
fn an_evicted_token_is_not_tried_again() {
    let mut mgr = AuthManager::<MemoryStore>::builder("c").build(holding(&sample_tokens()));
    assert!(matches!(mgr.load_or_refresh(), Ok(LoadStep::Refresh(_))));
    let dead = classify_refresh_error("400 invalid_grant");
    assert!(matches!(mgr.finish_refresh(Err(dead)), Err(AuthError::RefreshTokenInvalid)));
    assert!(matches!(mgr.load_or_refresh(), Err(AuthError::NoTokens)));
}

#[test]
fn signing_out_wipes_the_tokens() {
    let mut mgr = AuthManager::<MemoryStore>::builder("c").build(holding(&sample_tokens()));
    assert_eq!(mgr.peek_login().unwrap(), Some("impulseb23".to_string()));
    mgr.logout().unwrap();
    assert_eq!(mgr.peek_login().unwrap(), None);
    assert!(matches!(mgr.load_or_refresh_at(0), Err(AuthError::NoTokens)));
}

#[test]
fn the_device_flow_saves_what_was_granted() {
    let mut mgr = AuthManager::<MemoryStore>::builder("c").build(MemoryStore::default());
    let Ok(tokens) = mgr.complete_device_flow_at::<String>(Ok(granted()), 1_000) else {
        panic!("expected tokens");
    };
    let expected = TwitchTokens {
        access_token: "at".into(),
        refresh_token: "rt".into(),
        expires_at_ms: 3_601_000,
        scopes: vec!["a".into(), "b".into()],
        user_id: "1".into(),
        login: "me".into(),
    };
    assert!(tokens == expected);
    assert!(mgr.store.load().unwrap() == Some(expected));
}

#[test]
fn the_device_flow_reads_the_clock() {
    let before = chrono::Utc::now().timestamp_millis();
    let mut mgr = AuthManager::<MemoryStore>::builder("c").build(MemoryStore::default());
    let Ok(tokens) = mgr.complete_device_flow::<String>(Ok(granted())) else {
        panic!("expected tokens");
    };
    let after = chrono::Utc::now().timestamp_millis();
    assert!(before + 3_600_000 <= tokens.expires_at_ms);
    assert!(tokens.expires_at_ms <= after + 3_600_000);
    let Ok(again) = tokens_from_user_token(granted()) else {
        panic!("expected tokens");
    };
    assert!(again.expires_at_ms >= tokens.expires_at_ms);
}

#[test]
fn a_failed_device_flow_leaves_the_store_alone() {
    let mut mgr = AuthManager::<MemoryStore>::builder("c").build(holding(&sample_tokens()));
    assert!(matches!(
        mgr.complete_device_flow(Err("access_denied")),
        Err(AuthError::UserDenied)
    ));
    let mut nameless = granted();
    nameless.login = String::new();
    assert!(matches!(
        mgr.complete_device_flow::<String>(Ok(nameless)),
        Err(AuthError::OAuth(s)) if s == "twitch_oauth2 returned token with empty user_id or login"
    ));
    assert!(mgr.store.load().unwrap() == Some(sample_tokens()));
}

#[test]
fn a_grant_without_a_refresh_token_has_an_empty_one() {
    let mut grant = granted();
    grant.refresh_token = None;
    let Ok(tokens) = tokens_granted_at(grant, 0) else {
        panic!("expected tokens");
    };
    assert_eq!(tokens.refresh_token, "");
    let mut nobody = granted();
    nobody.user_id = String::new();
    assert!(matches!(tokens_granted_at(nobody, 0), Err(AuthError::OAuth(_))));
}

#[test]
fn the_client_asks_for_chat_and_moderation() {
    let mut tokens = sample_tokens();
    let mgr = twitch_manager("cid", holding(&tokens));
    assert_eq!(mgr.client_id, "cid");
    assert_eq!(
        mgr.scopes,
        vec![
            twitch_oauth2::Scope::UserReadChat.to_string(),
            twitch_oauth2::Scope::UserWriteChat.to_string(),
            twitch_oauth2::Scope::ModeratorManageBannedUsers.to_string(),
            twitch_oauth2::Scope::ModeratorManageChatMessages.to_string(),
        ]
    );
    assert!(matches!(mgr.load_or_refresh_at(0), Err(AuthError::Config(_))));
    tokens.scopes = mgr.scopes.clone();
    let mgr = twitch_manager("cid", holding(&tokens));
    assert!(matches!(mgr.load_or_refresh_at(0), Ok(LoadStep::Ready(got)) if got == tokens));
}
