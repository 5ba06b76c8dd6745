//! Acquisition and caching of OAuth2 bearer tokens against an Azure AD style
//! authorization server.
//!
//! The library models two credential-acquisition protocols — a confidential
//! client "client credentials" grant for application identities and a public
//! client "device code" grant (with silent refresh) for user identities —
//! together with a persistent keyed token cache with expiry-based
//! invalidation, and the profile-resolution merge that combines command-line
//! overrides, stored profiles and configured defaults.
//!
//! All protocol decisions live here with verified contracts; the surrounding
//! process (argument handling, HTTP transport, clipboard and browser
//! notification, file persistence) supplies plain values and performs the
//! actions this library decides on.

mod cache;
mod clock;
mod config;
mod decimal;
mod error;
mod flows;
mod orchestrate;
mod profile;
mod text;
mod token;

pub use cache::{
    distinct_keys, entries_map, lemma_cache_round_trip, lemma_prune_idempotent, live_entries,
    remove_key, CacheEntry, TokenCache,
};
pub use clock::{absolute_expiry, expired_at, now_epoch_seconds, spec_clamped_expiry, spec_expired};
pub use clock::{APP_READ_MARGIN_SECONDS, CACHE_MARGIN_SECONDS, EXPIRY_SLACK_SECONDS};
pub use decimal::{parse_i64, parses_as_i64, signed_value};
pub use config::{first_named, Configuration};
pub use error::Error;
pub use flows::{
    spec_pending_step, spec_poll_budget, spec_refreshed, AppExchange, DeviceCodeExchange,
    DeviceCodeGrant, PollExchange, PollProgress, PollState, RefreshExchange, TokenRequest,
};
pub use orchestrate::{lemma_refresh_failure_falls_back, AcquireStep};
pub use profile::{default_field, override_field, AppProfile, Profile, UserProfile};
pub use profile::{
    lemma_app_fingerprint_ignores_name_and_secret, lemma_missing_scope_invalid,
    lemma_resolution_precedence, lemma_user_fingerprint_ignores_name,
};
pub use token::{spec_selected_string, AADToken, AppToken, Token, TokenType, UserToken};
