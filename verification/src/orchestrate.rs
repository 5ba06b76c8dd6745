//! The request path that ties cache lookup, expiry check, silent refresh
//! and fresh acquisition together.
//!
//! The surrounding process performs the network exchanges and the cache
//! file I/O; every decision — whether the cached token is returned as-is,
//! whether a refresh is attempted first, and whether the flow falls back
//! to fresh acquisition — is made here.

use vstd::prelude::*;

use crate::cache::TokenCache;
use crate::flows::{spec_refreshed, RefreshExchange, TokenRequest};
use crate::profile::Profile;
use crate::token::{AADToken, Token, UserToken};

verus! {

/// The next step of one token request, as decided from the cache.
#[derive(Debug, PartialEq)]
pub enum AcquireStep {
    /// A cached token fresh enough to hand out as-is: the fast path, with
    /// no network call and no cache write.
    Cached(Token),
    /// The cache holds this expired user token: attempt a silent refresh
    /// before anything else.
    RefreshFirst(UserToken),
    /// No usable entry: run the profile's full acquisition flow.
    Fresh,
}

impl Profile {
    /// What `get_token` decides from the cache contents: a hit fresh
    /// enough to use is returned as-is; an expired user token under a
    /// user profile is refreshed first; everything else — a miss, an
    /// expired application token, or a variant mismatch — re-acquires.
    pub open spec fn spec_acquire_step(
        self,
        cache: Map<Seq<char>, Token>,
        now: int,
    ) -> AcquireStep {
        let k = self.spec_key();
        if cache.dom().contains(k) {
            let t = cache[k];
            if !t.spec_is_expired(now) {
                AcquireStep::Cached(t)
            } else {
                match (self, t) {
                    (Profile::User(_), Token::User(ut)) => AcquireStep::RefreshFirst(ut),
                    _ => AcquireStep::Fresh,
                }
            }
        } else {
            AcquireStep::Fresh
        }
    }

    /// Decides the next step of one token request from the cache: the
    /// cached token when it is still fresh, a refresh attempt for an
    /// expired user token, and fresh acquisition otherwise.
    pub fn get_token(&self, cache: &TokenCache, now: i64) -> (r: AcquireStep)
        requires
            cache.wf(),
        ensures
            r == self.spec_acquire_step(cache.as_map(), now as int),
    {
        let key = self.get_key();
        match cache.get(key.as_str()) {
            Some(t) => {
                if !t.is_expired(now) {
                    AcquireStep::Cached(t.clone())
                } else {
                    match (self, t) {
                        (Profile::User(_), Token::User(ut)) => AcquireStep::RefreshFirst(
                            ut.clone(),
                        ),
                        _ => AcquireStep::Fresh,
                    }
                }
            },
            None => AcquireStep::Fresh,
        }
    }

    /// The silent-refresh exchange for a cached user token, when one
    /// applies: application profiles have no refresh concept, and a
    /// cached token of the wrong variant cannot be refreshed either.
    pub fn refresh_request(&self, token: &Token) -> (r: Option<TokenRequest>)
        ensures
            (self matches Profile::User(p) ==> (token matches Token::User(t) ==> (r matches Some(
                req,
            ) && req.url@ == p.spec_token_url() && req.form@.len() == 4 && req.form@[0].0@
                == "client_id"@ && req.form@[0].1@ == p.client_id@ && req.form@[1].0@ == "scope"@
                && req.form@[1].1@ == p.scope@ && req.form@[2].0@ == "refresh_token"@
                && req.form@[2].1@ == t.refresh_token@ && req.form@[3].0@ == "grant_type"@
                && req.form@[3].1@ == "refresh_token"@))),
            ((self matches Profile::App(_) || token matches Token::App(_)) ==> r is None),
    {
        match (self, token) {
            (Profile::User(p), Token::User(t)) => Some(p.refresh_request(t)),
            _ => None,
        }
    }

    /// The token a silent refresh yields for this profile, if any.
    pub open spec fn spec_refresh_token(
        self,
        token: Token,
        exchange: RefreshExchange,
        now: int,
    ) -> Option<Token> {
        match (self, token) {
            (Profile::User(_), Token::User(_)) => match spec_refreshed(exchange, now) {
                Some(t) => Some(Token::User(t)),
                None => None,
            },
            _ => None,
        }
    }

    /// Completes a silent refresh: a fresh token only when this is a user
    /// profile with a cached user token and the exchange produced a body
    /// without a provider error; nothing on every failure, so the caller
    /// falls back to fresh acquisition.
    pub fn refresh_token(&self, token: &Token, exchange: RefreshExchange, now: i64) -> (r: Option<
        Token,
    >)
        ensures
            r == self.spec_refresh_token(*token, exchange, now as int),
    {
        match (self, token) {
            (Profile::User(p), Token::User(_)) => match p.refresh_token(exchange, now) {
                Some(t) => Some(Token::User(t)),
                None => None,
            },
            _ => None,
        }
    }

    /// After a refresh attempt: a refreshed token is committed and used;
    /// no refreshed token means the full acquisition flow runs.
    pub open spec fn spec_next_after_refresh(refreshed: Option<Token>) -> AcquireStep {
        match refreshed {
            Some(t) => AcquireStep::Cached(t),
            None => AcquireStep::Fresh,
        }
    }

    /// Decides what follows a refresh attempt: use the refreshed token,
    /// or — when the refresh failed in any way — proceed to the full
    /// acquisition flow rather than surfacing the refresh failure.
    pub fn next_after_refresh(refreshed: Option<Token>) -> (r: AcquireStep)
        ensures
            r == Self::spec_next_after_refresh(refreshed),
    {
        match refreshed {
            Some(t) => AcquireStep::Cached(t),
            None => AcquireStep::Fresh,
        }
    }

    /// Records a freshly obtained token in the cache under this profile's
    /// fingerprint key, replacing any stale entry.
    pub fn commit_token(&self, cache: &mut TokenCache, token: &Token)
        requires
            old(cache).wf(),
        ensures
            final(cache).wf(),
            final(cache).as_map() == old(cache).as_map().insert(self.spec_key(), *token),
    {
        cache.insert(self.get_key(), token.clone());
    }
}

/// Refresh is best effort, never a hard dependency: when the cache holds
/// an expired user token for a user profile, the request path first asks
/// for a refresh, and a refresh exchange that failed in any way sends it
/// on to the full device-code flow instead of surfacing the failure.
pub proof fn lemma_refresh_failure_falls_back(
    p: Profile,
    cache: Map<Seq<char>, Token>,
    t: UserToken,
    exchange: RefreshExchange,
    now: int,
)
    requires
        p matches Profile::User(_),
        cache.dom().contains(p.spec_key()),
        cache[p.spec_key()] == Token::User(t),
        Token::User(t).spec_is_expired(now),
        !(exchange matches RefreshExchange::Body(b) && b.error@.len() == 0),
    ensures
        p.spec_acquire_step(cache, now) == AcquireStep::RefreshFirst(t),
        p.spec_refresh_token(Token::User(t), exchange, now) is None,
        Profile::spec_next_after_refresh(p.spec_refresh_token(Token::User(t), exchange, now))
            == AcquireStep::Fresh,
{
}

} // verus!
