//! The protocol engines and the orchestrated request path.

use tokengen::{
    AcquireStep, AppExchange, AppProfile, AppToken, DeviceCodeExchange, DeviceCodeGrant, Error,
    PollExchange, PollProgress, PollState, Profile, RefreshExchange, Token, TokenCache,
    UserProfile, UserToken,
};

fn valid_app_profile() -> AppProfile {
    AppProfile {
        name: "svc".to_string(),
        client_id: "cid".to_string(),
        secret: "sec".to_string(),
        tenant: "tnt".to_string(),
        authority: "https://login.example".to_string(),
        resource: "https://api.example".to_string(),
    }
}

fn valid_user_profile() -> UserProfile {
    UserProfile {
        name: "me".to_string(),
        client_id: "cid".to_string(),
        tenant: "tnt".to_string(),
        authority: "https://login.example".to_string(),
        scope: "openid offline_access".to_string(),
    }
}

fn grant(expires_in: u64, interval: u64) -> DeviceCodeGrant {
    DeviceCodeGrant {
        device_code: "dev-code".to_string(),
        user_code: "USER-CODE".to_string(),
        verification_uri: "https://verify.example".to_string(),
        expires_in,
        interval,
        message: "enter the code".to_string(),
    }
}

fn poll_body(error: &str, access: &str, expires_in: i64) -> UserToken {
    UserToken {
        error: error.to_string(),
        scope: "openid".to_string(),
        id_token: String::new(),
        access_token: access.to_string(),
        refresh_token: "refresh".to_string(),
        expires_in,
        expires_on: 0,
    }
}

fn form_of(req: &tokengen::TokenRequest) -> Vec<(String, String)> {
    req.form.clone()
}

#[test]
fn client_credentials_request_carries_the_v1_form() {
    let req = valid_app_profile().token_request();
    assert_eq!(req.url, "https://login.example/tnt/oauth2/token");
    assert_eq!(
        form_of(&req),
        vec![
            ("grant_type".to_string(), "client_credentials".to_string()),
            ("client_id".to_string(), "cid".to_string()),
            ("client_secret".to_string(), "sec".to_string()),
            ("resource".to_string(), "https://api.example".to_string()),
        ]
    );
}

#[test]
fn device_code_request_carries_client_and_scope() {
    let req = valid_user_profile().device_code_request();
    assert_eq!(req.url, "https://login.example/tnt/oauth2/v2.0/devicecode");
    assert_eq!(
        form_of(&req),
        vec![
            ("client_id".to_string(), "cid".to_string()),
            ("scope".to_string(), "openid offline_access".to_string()),
        ]
    );
}

#[test]
fn poll_request_carries_the_device_code_grant_type() {
    let req = valid_user_profile().poll_request("dev-code");
    assert_eq!(req.url, "https://login.example/tnt/oauth2/v2.0/token");
    assert_eq!(
        form_of(&req),
        vec![
            (
                "grant_type".to_string(),
                "urn:ietf:params:oauth:grant-type:device_code".to_string()
            ),
            ("client_id".to_string(), "cid".to_string()),
            ("device_code".to_string(), "dev-code".to_string()),
        ]
    );
}

#[test]
fn refresh_request_carries_the_previous_refresh_token() {
    let p = valid_user_profile();
    let old = poll_body("", "stale", 0);
    let req = p.refresh_request(&old);
    assert_eq!(req.url, "https://login.example/tnt/oauth2/v2.0/token");
    assert_eq!(
        form_of(&req),
        vec![
            ("client_id".to_string(), "cid".to_string()),
            ("scope".to_string(), "openid offline_access".to_string()),
            ("refresh_token".to_string(), "refresh".to_string()),
            ("grant_type".to_string(), "refresh_token".to_string()),
        ]
    );
}

#[test]
fn client_credentials_failures_are_fatal_with_their_status() {
    let t = AppToken {
        id_token: String::new(),
        access_token: "a".to_string(),
        expires_on: "1".to_string(),
    };
    assert_eq!(
        AppProfile::token_from_exchange(AppExchange::Token(t.clone())),
        Ok(t)
    );
    assert_eq!(
        AppProfile::token_from_exchange(AppExchange::TransportFailed),
        Err(Error::Transport)
    );
    let err = AppProfile::token_from_exchange(AppExchange::HttpError(401)).unwrap_err();
    assert_eq!(err, Error::Http(401));
    assert_eq!(err.exit_code(), 401);
    assert_eq!(
        AppProfile::token_from_exchange(AppExchange::DecodeFailed),
        Err(Error::Decode)
    );
}

#[test]
fn device_code_request_failures_are_fatal() {
    let g = grant(900, 5);
    assert_eq!(
        UserProfile::grant_from_exchange(DeviceCodeExchange::Granted(g.clone())),
        Ok(g)
    );
    assert_eq!(
        UserProfile::grant_from_exchange(DeviceCodeExchange::TransportFailed),
        Err(Error::Transport)
    );
    assert_eq!(
        UserProfile::grant_from_exchange(DeviceCodeExchange::HttpError(400)),
        Err(Error::Http(400))
    );
    assert_eq!(
        UserProfile::grant_from_exchange(DeviceCodeExchange::DecodeFailed),
        Err(Error::Decode)
    );
}

#[test]
fn poll_budget_is_lifetime_over_interval() {
    let st = PollState::new(&grant(900, 5));
    assert_eq!(st.attempts_left, 180);
    assert_eq!(st.interval_seconds, 5);
    assert!(st.can_poll());
}

#[test]
fn poll_budget_with_zero_interval_is_the_lifetime() {
    let st = PollState::new(&grant(42, 0));
    assert_eq!(st.attempts_left, 42);
}

#[test]
fn poll_budget_zero_means_no_polling() {
    let st = PollState::new(&grant(3, 5));
    assert!(!st.can_poll());
}

#[test]
fn explicit_denial_terminates_polling_immediately() {
    let mut st = PollState::new(&grant(900, 5));
    let r = st.on_exchange(PollExchange::Body(poll_body("access_denied", "", 0)), 0);
    assert_eq!(r, Err(Error::Denied("access_denied".to_string())));
    // No attempt is consumed and no token is produced: the flow aborts.
    assert_eq!(st.attempts_left, 180);
}

#[test]
fn pending_then_success_sleeps_twice_and_stamps_the_expiry() {
    let now = 1_700_000_000;
    let mut st = PollState::new(&grant(900, 5));

    let r1 = st.on_exchange(PollExchange::Body(poll_body("authorization_pending", "", 0)), now);
    assert_eq!(r1, Ok(PollProgress::Sleep(5)));
    let r2 = st.on_exchange(PollExchange::Body(poll_body("authorization_pending", "", 0)), now);
    assert_eq!(r2, Ok(PollProgress::Sleep(5)));
    assert_eq!(st.attempts_left, 178);

    let r3 = st.on_exchange(PollExchange::Body(poll_body("", "fresh", 3600)), now);
    match r3 {
        Ok(PollProgress::Obtained(tok)) => {
            assert_eq!(tok.access_token, "fresh");
            assert_eq!(tok.expires_on, now + 3600 - 5);
            assert_eq!(tok.refresh_token, "refresh");
        }
        other => panic!("expected a token, got {:?}", other),
    }
}

#[test]
fn exhausting_the_budget_times_out() {
    let mut st = PollState::new(&grant(5, 5));
    assert_eq!(st.attempts_left, 1);
    let r = st.on_exchange(PollExchange::Body(poll_body("authorization_pending", "", 0)), 0);
    assert_eq!(r, Err(Error::TimedOut));
    assert!(!st.can_poll());
}

#[test]
fn transport_blips_are_tolerated_while_polling() {
    let mut st = PollState::new(&grant(900, 5));
    let r = st.on_exchange(PollExchange::TransportFailed, 0);
    assert_eq!(r, Ok(PollProgress::Sleep(5)));
    assert_eq!(st.attempts_left, 179);
}

#[test]
fn undecodable_poll_bodies_are_fatal() {
    let mut st = PollState::new(&grant(900, 5));
    assert_eq!(st.on_exchange(PollExchange::DecodeFailed, 0), Err(Error::Decode));
}

#[test]
fn refresh_success_recomputes_the_expiry() {
    let now = 1_700_000_000;
    let p = valid_user_profile();
    let r = p.refresh_token(RefreshExchange::Body(poll_body("", "new", 3600)), now);
    let tok = r.expect("refresh should succeed on a clean body");
    assert_eq!(tok.access_token, "new");
    assert_eq!(tok.expires_on, now + 3600 - 5);
}

#[test]
fn refresh_failures_yield_no_token() {
    let p = valid_user_profile();
    assert_eq!(p.refresh_token(RefreshExchange::TransportFailed, 0), None);
    assert_eq!(p.refresh_token(RefreshExchange::HttpError(400), 0), None);
    assert_eq!(p.refresh_token(RefreshExchange::DecodeFailed, 0), None);
    assert_eq!(
        p.refresh_token(RefreshExchange::Body(poll_body("invalid_grant", "", 0)), 0),
        None
    );
}

#[test]
fn cache_hit_returns_the_token_without_refreshing() {
    let now = 1_000_000;
    let profile = Profile::User(valid_user_profile());
    let mut cache = TokenCache::new();
    let mut tok = poll_body("", "cached", 3600);
    tok.expires_on = now + 3600;
    cache.insert(profile.get_key(), Token::User(tok.clone()));
    assert_eq!(profile.get_token(&cache, now), AcquireStep::Cached(Token::User(tok)));
}

#[test]
fn cache_miss_acquires_fresh() {
    let profile = Profile::User(valid_user_profile());
    let cache = TokenCache::new();
    assert_eq!(profile.get_token(&cache, 0), AcquireStep::Fresh);
}

#[test]
fn expired_user_token_attempts_refresh_first() {
    let now = 1_000_000;
    let profile = Profile::User(valid_user_profile());
    let mut cache = TokenCache::new();
    let mut tok = poll_body("", "old", 3600);
    tok.expires_on = now; // within the one-minute margin: expired
    cache.insert(profile.get_key(), Token::User(tok.clone()));
    assert_eq!(profile.get_token(&cache, now), AcquireStep::RefreshFirst(tok));
}

#[test]
fn expired_app_token_reacquires_without_refresh() {
    let now = 1_000_000;
    let profile = Profile::App(valid_app_profile());
    let mut cache = TokenCache::new();
    let tok = AppToken {
        id_token: String::new(),
        access_token: "old".to_string(),
        expires_on: now.to_string(),
    };
    cache.insert(profile.get_key(), Token::App(tok));
    assert_eq!(profile.get_token(&cache, now), AcquireStep::Fresh);
}

#[test]
fn failed_refresh_falls_back_to_the_device_code_flow() {
    let now = 1_000_000;
    let profile = Profile::User(valid_user_profile());
    let mut cache = TokenCache::new();
    let mut tok = poll_body("", "old", 3600);
    tok.expires_on = now;
    cache.insert(profile.get_key(), Token::User(tok.clone()));

    // The orchestrator asks for a refresh first ...
    let step = profile.get_token(&cache, now);
    assert_eq!(step, AcquireStep::RefreshFirst(tok.clone()));

    // ... the refresh exchange fails with a client error ...
    let refreshed = profile.refresh_token(&Token::User(tok), RefreshExchange::HttpError(400), now);
    assert_eq!(refreshed, None);

    // ... and the failure sends the flow on to fresh acquisition instead
    // of surfacing it.
    assert_eq!(Profile::next_after_refresh(refreshed), AcquireStep::Fresh);
}

#[test]
fn successful_refresh_is_used_directly() {
    let tok = Token::User(poll_body("", "new", 3600));
    assert_eq!(
        Profile::next_after_refresh(Some(tok.clone())),
        AcquireStep::Cached(tok)
    );
}

#[test]
fn refresh_request_applies_only_to_user_pairs() {
    let user = Profile::User(valid_user_profile());
    let app = Profile::App(valid_app_profile());
    let utok = Token::User(poll_body("", "x", 0));
    let atok = Token::App(AppToken {
        id_token: String::new(),
        access_token: String::new(),
        expires_on: String::new(),
    });
    assert!(user.refresh_request(&utok).is_some());
    assert!(user.refresh_request(&atok).is_none());
    assert!(app.refresh_request(&utok).is_none());
    assert_eq!(app.refresh_token(&utok, RefreshExchange::Body(poll_body("", "x", 0)), 0), None);
}

#[test]
fn committing_a_token_stores_it_under_the_fingerprint() {
    let profile = Profile::User(valid_user_profile());
    let mut cache = TokenCache::new();
    let tok = Token::User(poll_body("", "fresh", 3600));
    profile.commit_token(&mut cache, &tok);
    assert_eq!(cache.get(&profile.get_key()), Some(&tok));
}
