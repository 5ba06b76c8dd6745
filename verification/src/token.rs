//! Bearer tokens: the application and user variants, expiry, and extraction
//! of the requested token-string representation.

use vstd::prelude::*;

use crate::clock::{expired_at, spec_expired, APP_READ_MARGIN_SECONDS, CACHE_MARGIN_SECONDS};
use crate::decimal::{parse_i64, parses_as_i64, signed_value};

verus! {

/// Which string representation of a token the caller wants.
#[derive(Copy, Clone, PartialEq, Eq, Structural, Debug)]
pub enum TokenType {
    Access,
    Id,
    AccessOrId,
    IdOrAccess,
}

/// The token string selected by `token_type` from an access token and an id
/// token: either one unconditionally, or one with the other as fallback
/// when it is empty.
pub open spec fn spec_selected_string(
    access: Seq<char>,
    id: Seq<char>,
    token_type: TokenType,
) -> Seq<char> {
    match token_type {
        TokenType::Access => access,
        TokenType::Id => id,
        TokenType::AccessOrId => if access.len() == 0 {
            id
        } else {
            access
        },
        TokenType::IdOrAccess => if id.len() == 0 {
            access
        } else {
            id
        },
    }
}

/// Expiry reporting and token-string extraction, common to both token
/// variants.
pub trait AADToken {
    /// When this token counts as expired for immediate use.
    spec fn spec_is_expired(&self, now: int) -> bool;

    /// The token string denoted by `token_type`.
    spec fn spec_token_string(&self, token_type: TokenType) -> Seq<char>;

    /// Whether fewer than the variant's read-time safety margin of seconds
    /// remain until this token's expiry.
    fn is_expired(&self, now: i64) -> (r: bool)
        ensures
            r == self.spec_is_expired(now as int),
    ;

    /// The requested string representation of this token.
    fn get_token_string(&self, token_type: TokenType) -> (r: String)
        ensures
            r@ == self.spec_token_string(token_type),
    ;
}

/// A token issued by the client-credentials exchange.  The server reports
/// the absolute expiry as a decimal string of epoch seconds.
#[derive(Debug, PartialEq)]
pub struct AppToken {
    pub id_token: String,
    pub access_token: String,
    pub expires_on: String,
}

impl Clone for AppToken {
    fn clone(&self) -> (r: Self)
        ensures
            r == *self,
    {
        AppToken {
            id_token: self.id_token.clone(),
            access_token: self.access_token.clone(),
            expires_on: self.expires_on.clone(),
        }
    }
}

impl Default for AppToken {
    /// An application token with every field empty.
    fn default() -> (r: Self)
        ensures
            r.id_token@.len() == 0,
            r.access_token@.len() == 0,
            r.expires_on@.len() == 0,
    {
        AppToken { id_token: String::new(), access_token: String::new(), expires_on: String::new() }
    }
}

impl AppToken {
    /// The parsed expiry instant, or nothing when the field does not denote
    /// an epoch timestamp.
    pub open spec fn spec_expires_on(&self) -> Option<int> {
        if parses_as_i64(self.expires_on@) {
            Some(signed_value(self.expires_on@))
        } else {
            None
        }
    }

    /// Expired under `margin` seconds of slack; an unparseable expiry field
    /// counts as already expired (fail safe).
    pub open spec fn spec_expired_with_margin(&self, now: int, margin: int) -> bool {
        match self.spec_expires_on() {
            Some(exp) => spec_expired(exp, now, margin),
            None => true,
        }
    }
}

impl AADToken for AppToken {
    open spec fn spec_is_expired(&self, now: int) -> bool {
        self.spec_expired_with_margin(now, APP_READ_MARGIN_SECONDS as int)
    }

    open spec fn spec_token_string(&self, token_type: TokenType) -> Seq<char> {
        spec_selected_string(self.access_token@, self.id_token@, token_type)
    }

    fn is_expired(&self, now: i64) -> (r: bool)
        ensures
            r == self.spec_is_expired(now as int),
    {
        match parse_i64(self.expires_on.as_str()) {
            Some(exp) => expired_at(exp, now, APP_READ_MARGIN_SECONDS),
            None => true,
        }
    }

    fn get_token_string(&self, token_type: TokenType) -> (r: String)
        ensures
            r@ == self.spec_token_string(token_type),
    {
        match token_type {
            TokenType::Access => self.access_token.clone(),
            TokenType::Id => self.id_token.clone(),
            TokenType::AccessOrId => if self.access_token.as_str().is_empty() {
                self.id_token.clone()
            } else {
                self.access_token.clone()
            },
            TokenType::IdOrAccess => if self.id_token.as_str().is_empty() {
                self.access_token.clone()
            } else {
                self.id_token.clone()
            },
        }
    }
}

/// A token issued by the device-code or refresh exchange.  `expires_on` is
/// computed locally from the server's relative lifetime; a non-empty
/// `error` marks a failed or still-pending exchange body.
#[derive(Debug, PartialEq)]
pub struct UserToken {
    pub error: String,
    pub scope: String,
    pub id_token: String,
    pub access_token: String,
    pub refresh_token: String,
    pub expires_in: i64,
    pub expires_on: i64,
}

impl Clone for UserToken {
    fn clone(&self) -> (r: Self)
        ensures
            r == *self,
    {
        UserToken {
            error: self.error.clone(),
            scope: self.scope.clone(),
            id_token: self.id_token.clone(),
            access_token: self.access_token.clone(),
            refresh_token: self.refresh_token.clone(),
            expires_in: self.expires_in,
            expires_on: self.expires_on,
        }
    }
}

impl AADToken for UserToken {
    open spec fn spec_is_expired(&self, now: int) -> bool {
        spec_expired(self.expires_on as int, now, CACHE_MARGIN_SECONDS as int)
    }

    open spec fn spec_token_string(&self, token_type: TokenType) -> Seq<char> {
        spec_selected_string(self.access_token@, self.id_token@, token_type)
    }

    fn is_expired(&self, now: i64) -> (r: bool)
        ensures
            r == self.spec_is_expired(now as int),
    {
        expired_at(self.expires_on, now, CACHE_MARGIN_SECONDS)
    }

    fn get_token_string(&self, token_type: TokenType) -> (r: String)
        ensures
            r@ == self.spec_token_string(token_type),
    {
        match token_type {
            TokenType::Access => self.access_token.clone(),
            TokenType::Id => self.id_token.clone(),
            TokenType::AccessOrId => if self.access_token.as_str().is_empty() {
                self.id_token.clone()
            } else {
                self.access_token.clone()
            },
            TokenType::IdOrAccess => if self.id_token.as_str().is_empty() {
                self.access_token.clone()
            } else {
                self.id_token.clone()
            },
        }
    }
}

/// A cached or freshly acquired token of either variant.
#[derive(Debug, PartialEq)]
pub enum Token {
    App(AppToken),
    User(UserToken),
}

impl Clone for Token {
    fn clone(&self) -> (r: Self)
        ensures
            r == *self,
    {
        match self {
            Token::App(t) => Token::App(t.clone()),
            Token::User(t) => Token::User(t.clone()),
        }
    }
}

impl Default for Token {
    /// An empty application token.
    fn default() -> (r: Self)
        ensures
            (r matches Token::App(t) && t.id_token@.len() == 0 && t.access_token@.len() == 0
                && t.expires_on@.len() == 0),
    {
        Token::App(AppToken::default())
    }
}

impl Token {
    /// Expired for the purpose of cache persistence: fewer than the cache
    /// margin of seconds remain (or, for an application token, the expiry
    /// field does not parse).
    pub open spec fn spec_cache_expired(&self, now: int) -> bool {
        match self {
            Token::App(t) => t.spec_expired_with_margin(now, CACHE_MARGIN_SECONDS as int),
            Token::User(t) => spec_expired(t.expires_on as int, now, CACHE_MARGIN_SECONDS as int),
        }
    }

    /// Whether this entry would be dropped by the cache's save-time filter.
    pub fn is_cache_expired(&self, now: i64) -> (r: bool)
        ensures
            r == self.spec_cache_expired(now as int),
    {
        match self {
            Token::App(t) => match parse_i64(t.expires_on.as_str()) {
                Some(exp) => expired_at(exp, now, CACHE_MARGIN_SECONDS),
                None => true,
            },
            Token::User(t) => expired_at(t.expires_on, now, CACHE_MARGIN_SECONDS),
        }
    }
}

impl AADToken for Token {
    open spec fn spec_is_expired(&self, now: int) -> bool {
        match self {
            Token::App(t) => t.spec_is_expired(now),
            Token::User(t) => t.spec_is_expired(now),
        }
    }

    open spec fn spec_token_string(&self, token_type: TokenType) -> Seq<char> {
        match self {
            Token::App(t) => t.spec_token_string(token_type),
            Token::User(t) => t.spec_token_string(token_type),
        }
    }

    fn is_expired(&self, now: i64) -> (r: bool)
        ensures
            r == self.spec_is_expired(now as int),
    {
        match self {
            Token::App(t) => t.is_expired(now),
            Token::User(t) => t.is_expired(now),
        }
    }

    fn get_token_string(&self, token_type: TokenType) -> (r: String)
        ensures
            r@ == self.spec_token_string(token_type),
    {
        match self {
            Token::App(t) => t.get_token_string(token_type),
            Token::User(t) => t.get_token_string(token_type),
        }
    }
}

} // verus!
