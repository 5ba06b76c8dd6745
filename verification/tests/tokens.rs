//! Token expiry, token-string selection, decimal parsing, and error codes.

use tokengen::{absolute_expiry, expired_at, now_epoch_seconds, parse_i64};
use tokengen::{AADToken, AppToken, Error, Token, TokenType, UserToken};

fn user_token(access: &str, id: &str, expires_on: i64) -> UserToken {
    UserToken {
        error: String::new(),
        scope: String::new(),
        id_token: id.to_string(),
        access_token: access.to_string(),
        refresh_token: String::new(),
        expires_in: 0,
        expires_on,
    }
}

fn app_token(access: &str, id: &str, expires_on: &str) -> AppToken {
    AppToken {
        id_token: id.to_string(),
        access_token: access.to_string(),
        expires_on: expires_on.to_string(),
    }
}

#[test]
fn selector_id_or_access_falls_back_to_access() {
    let t = user_token("a", "", 0);
    assert_eq!(t.get_token_string(TokenType::IdOrAccess), "a");
}

#[test]
fn selector_id_yields_empty_when_id_empty() {
    let t = user_token("a", "", 0);
    assert_eq!(t.get_token_string(TokenType::Id), "");
}

#[test]
fn selector_all_four_on_app_token() {
    let t = app_token("acc", "id", "0");
    assert_eq!(t.get_token_string(TokenType::Access), "acc");
    assert_eq!(t.get_token_string(TokenType::Id), "id");
    assert_eq!(t.get_token_string(TokenType::AccessOrId), "acc");
    assert_eq!(t.get_token_string(TokenType::IdOrAccess), "id");
}

#[test]
fn selector_fallbacks_when_one_side_empty() {
    let t = app_token("", "id", "0");
    assert_eq!(t.get_token_string(TokenType::AccessOrId), "id");
    let t2 = app_token("acc", "", "0");
    assert_eq!(t2.get_token_string(TokenType::IdOrAccess), "acc");
}

#[test]
fn token_enum_dispatches_selection() {
    let t = Token::User(user_token("ua", "ui", 0));
    assert_eq!(t.get_token_string(TokenType::Access), "ua");
    let t = Token::App(app_token("aa", "ai", "0"));
    assert_eq!(t.get_token_string(TokenType::Id), "ai");
}

#[test]
fn app_token_uses_five_minute_read_margin() {
    let now = 1_000_000;
    let fresh = app_token("a", "", "1000300");
    assert!(!fresh.is_expired(now));
    let stale = app_token("a", "", "1000299");
    assert!(stale.is_expired(now));
}

#[test]
fn app_token_unparseable_expiry_counts_as_expired() {
    let t = app_token("a", "", "not-a-number");
    assert!(t.is_expired(0));
    let t2 = app_token("a", "", "");
    assert!(t2.is_expired(0));
}

#[test]
fn user_token_uses_one_minute_read_margin() {
    let now = 1_000_000;
    assert!(!user_token("a", "", 1_000_060).is_expired(now));
    assert!(user_token("a", "", 1_000_059).is_expired(now));
}

#[test]
fn cache_margin_is_one_minute_for_both_variants() {
    let now = 1_000_000;
    assert!(!Token::App(app_token("a", "", "1000060")).is_cache_expired(now));
    assert!(Token::App(app_token("a", "", "1000059")).is_cache_expired(now));
    assert!(!Token::User(user_token("a", "", 1_000_060)).is_cache_expired(now));
    assert!(Token::User(user_token("a", "", 1_000_059)).is_cache_expired(now));
}

#[test]
fn cache_margin_unparseable_app_expiry_is_expired() {
    assert!(Token::App(app_token("a", "", "oops")).is_cache_expired(0));
}

#[test]
fn token_default_is_empty_app_token() {
    match Token::default() {
        Token::App(t) => {
            assert_eq!(t.id_token, "");
            assert_eq!(t.access_token, "");
            assert_eq!(t.expires_on, "");
        }
        Token::User(_) => panic!("default token should be the application variant"),
    }
}

#[test]
fn parse_accepts_plain_digits() {
    assert_eq!(parse_i64("123"), Some(123));
    assert_eq!(parse_i64("0"), Some(0));
    assert_eq!(parse_i64("007"), Some(7));
}

#[test]
fn parse_accepts_signs() {
    assert_eq!(parse_i64("+42"), Some(42));
    assert_eq!(parse_i64("-42"), Some(-42));
}

#[test]
fn parse_handles_the_extremes_of_the_range() {
    assert_eq!(parse_i64("9223372036854775807"), Some(i64::MAX));
    assert_eq!(parse_i64("-9223372036854775808"), Some(i64::MIN));
    assert_eq!(parse_i64("9223372036854775808"), None);
    assert_eq!(parse_i64("-9223372036854775809"), None);
    assert_eq!(parse_i64("99999999999999999999999"), None);
}

#[test]
fn parse_rejects_malformed_text() {
    assert_eq!(parse_i64(""), None);
    assert_eq!(parse_i64("+"), None);
    assert_eq!(parse_i64("-"), None);
    assert_eq!(parse_i64("12a"), None);
    assert_eq!(parse_i64("a12"), None);
    assert_eq!(parse_i64(" 12"), None);
    assert_eq!(parse_i64("1 2"), None);
    assert_eq!(parse_i64("--1"), None);
}

#[test]
fn expiry_test_is_exact_at_the_margin() {
    assert!(!expired_at(1_000_060, 1_000_000, 60));
    assert!(expired_at(1_000_059, 1_000_000, 60));
}

#[test]
fn expiry_test_survives_extreme_differences() {
    assert!(expired_at(i64::MIN, i64::MAX, 60));
    assert!(!expired_at(i64::MAX, i64::MIN, 60));
}

#[test]
fn absolute_expiry_subtracts_five_seconds_of_slack() {
    assert_eq!(absolute_expiry(100, 60), 155);
    assert_eq!(absolute_expiry(1_700_000_000, 3600), 1_700_003_595);
}

#[test]
fn absolute_expiry_clamps_at_the_integer_bounds() {
    assert_eq!(absolute_expiry(i64::MAX, 10), i64::MAX);
    assert_eq!(absolute_expiry(i64::MIN, -10), i64::MIN);
    assert_eq!(absolute_expiry(i64::MAX, 4), i64::MAX - 1);
}

#[test]
fn exit_codes_follow_the_error_taxonomy() {
    assert_eq!(Error::UnknownProfileType.exit_code(), 3);
    assert_eq!(Error::Transport.exit_code(), 1);
    assert_eq!(Error::Http(404).exit_code(), 404);
    assert_eq!(Error::Http(500).exit_code(), 500);
    assert_eq!(Error::Decode.exit_code(), 2);
    assert_eq!(Error::Denied("access_denied".to_string()).exit_code(), 2);
    assert_eq!(Error::TimedOut.exit_code(), 2);
}

#[test]
fn clock_reports_a_positive_epoch_time() {
    assert!(now_epoch_seconds() > 0);
}
