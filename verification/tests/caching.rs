//! The token cache: lookup, replacement, and the save-time expiry filter.

use tokengen::{Token, TokenCache, UserToken};

fn user_token_expiring(expires_on: i64) -> Token {
    Token::User(UserToken {
        error: String::new(),
        scope: "s".to_string(),
        id_token: "i".to_string(),
        access_token: "a".to_string(),
        refresh_token: "r".to_string(),
        expires_in: 3600,
        expires_on,
    })
}

#[test]
fn saving_and_reloading_keeps_a_live_token_unchanged() {
    let now = 1_000_000;
    let token = user_token_expiring(now + 3600);
    let mut cache = TokenCache::new();
    cache.insert("key".to_string(), token.clone());
    let persisted = cache.pruned(now);
    assert_eq!(persisted.get("key"), Some(&token));
}

#[test]
fn saving_drops_an_expired_entry() {
    let now = 1_000_000;
    let mut cache = TokenCache::new();
    cache.insert("stale".to_string(), user_token_expiring(now));
    cache.insert("live".to_string(), user_token_expiring(now + 3600));
    let persisted = cache.pruned(now);
    assert_eq!(persisted.get("stale"), None);
    assert!(persisted.get("live").is_some());
    assert_eq!(persisted.entry_count(), 1);
}

#[test]
fn saving_twice_persists_identical_entries() {
    let now = 1_000_000;
    let mut cache = TokenCache::new();
    cache.insert("a".to_string(), user_token_expiring(now + 10));
    cache.insert("b".to_string(), user_token_expiring(now + 7200));
    cache.insert("c".to_string(), user_token_expiring(now - 50));
    let once = cache.pruned(now);
    let twice = once.pruned(now);
    assert_eq!(once, twice);
}

#[test]
fn lookup_misses_on_an_absent_key() {
    let cache = TokenCache::new();
    assert_eq!(cache.get("anything"), None);
    assert_eq!(cache.entry_count(), 0);
}

#[test]
fn inserting_under_an_existing_key_replaces_the_entry() {
    let mut cache = TokenCache::new();
    cache.insert("k".to_string(), user_token_expiring(1));
    cache.insert("k".to_string(), user_token_expiring(2));
    assert_eq!(cache.entry_count(), 1);
    assert_eq!(cache.get("k"), Some(&user_token_expiring(2)));
}

#[test]
fn entries_can_be_walked_for_persistence() {
    let mut cache = TokenCache::new();
    cache.insert("one".to_string(), user_token_expiring(1));
    cache.insert("two".to_string(), user_token_expiring(2));
    assert_eq!(cache.entry_count(), 2);
    let mut seen = Vec::new();
    for i in 0..cache.entry_count() {
        seen.push(cache.entry_at(i).key.clone());
    }
    seen.sort();
    assert_eq!(seen, vec!["one".to_string(), "two".to_string()]);
}
