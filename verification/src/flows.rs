//! The two acquisition protocols: the one-shot client-credentials exchange
//! for application profiles, and the device-code request / poll / silent
//! refresh machinery for user profiles.
//!
//! Each exchange is split into a request builder, which pins down the URL
//! and every form field sent, and a completion step that turns the wire
//! outcome into a token or a structured error.  The surrounding process
//! performs the POST itself and reports what came back as an exchange
//! value; every decision about the outcome is made and verified here.

use vstd::prelude::*;
use vstd::string::StringExecFns;

use crate::clock::{absolute_expiry, spec_clamped_expiry};
use crate::error::Error;
use crate::profile::{AppProfile, UserProfile};
use crate::text::str_eq;
use crate::token::{AppToken, UserToken};

verus! {

/// One form-encoded POST to be sent: the URL and the form fields, in
/// order.
#[derive(Debug, PartialEq)]
pub struct TokenRequest {
    pub url: String,
    pub form: Vec<(String, String)>,
}

/// What came back from a one-shot client-credentials POST.  A decode
/// failure can only be observed on a success status: a non-success status
/// is fatal before the body is ever examined.
#[derive(Debug, PartialEq)]
pub enum AppExchange {
    /// The request could not be sent or no response arrived.
    TransportFailed,
    /// The server answered with a non-success status.
    HttpError(u16),
    /// The body of a success response did not decode as a token.
    DecodeFailed,
    /// The decoded token of a success response.
    Token(AppToken),
}

/// What came back from the device-code request POST.
#[derive(Debug, PartialEq)]
pub enum DeviceCodeExchange {
    TransportFailed,
    HttpError(u16),
    DecodeFailed,
    Granted(DeviceCodeGrant),
}

/// What came back from one poll POST.  During polling a non-success
/// status is not an error: the body is decoded regardless, so only
/// transport and decode failures are distinguished from a decoded body.
#[derive(Debug, PartialEq)]
pub enum PollExchange {
    TransportFailed,
    DecodeFailed,
    Body(UserToken),
}

/// What came back from a silent-refresh POST.
#[derive(Debug, PartialEq)]
pub enum RefreshExchange {
    TransportFailed,
    HttpError(u16),
    DecodeFailed,
    Body(UserToken),
}

/// The server's answer to a device-code request: the code the client
/// polls with, what the user must enter where, and the poll cadence.
#[derive(Debug, PartialEq)]
pub struct DeviceCodeGrant {
    pub device_code: String,
    pub user_code: String,
    pub verification_uri: String,
    pub expires_in: u64,
    pub interval: u64,
    pub message: String,
}

impl Clone for DeviceCodeGrant {
    fn clone(&self) -> (r: Self)
        ensures
            r == *self,
    {
        DeviceCodeGrant {
            device_code: self.device_code.clone(),
            user_code: self.user_code.clone(),
            verification_uri: self.verification_uri.clone(),
            expires_in: self.expires_in,
            interval: self.interval,
            message: self.message.clone(),
        }
    }
}

impl AppProfile {
    /// The v1 token endpoint of this profile's tenant.
    pub open spec fn spec_token_url(&self) -> Seq<char> {
        self.authority@ + "/"@ + self.tenant@ + "/oauth2/token"@
    }

    /// The client-credentials exchange: one POST carrying exactly the
    /// grant type, client id, client secret and resource.  Only a valid
    /// profile may attempt acquisition.
    pub fn token_request(&self) -> (r: TokenRequest)
        requires
            self.spec_is_valid(),
        ensures
            r.url@ == self.spec_token_url(),
            r.form@.len() == 4,
            r.form@[0].0@ == "grant_type"@ && r.form@[0].1@ == "client_credentials"@,
            r.form@[1].0@ == "client_id"@ && r.form@[1].1@ == self.client_id@,
            r.form@[2].0@ == "client_secret"@ && r.form@[2].1@ == self.secret@,
            r.form@[3].0@ == "resource"@ && r.form@[3].1@ == self.resource@,
    {
        let url = self.authority.clone().concat("/").concat(self.tenant.as_str()).concat(
            "/oauth2/token",
        );
        let mut form: Vec<(String, String)> = Vec::new();
        form.push((String::from_str("grant_type"), String::from_str("client_credentials")));
        form.push((String::from_str("client_id"), self.client_id.clone()));
        form.push((String::from_str("client_secret"), self.secret.clone()));
        form.push((String::from_str("resource"), self.resource.clone()));
        TokenRequest { url, form }
    }

    /// The fate of a client-credentials exchange: the decoded token on
    /// success, and a fatal error for every failure — the HTTP status for
    /// a non-success answer, since a client-credentials failure is almost
    /// always a configuration error.
    pub fn token_from_exchange(exchange: AppExchange) -> (r: Result<AppToken, Error>)
        ensures
            (exchange matches AppExchange::Token(t) ==> r matches Ok(rt) && rt == t),
            (exchange matches AppExchange::TransportFailed ==> r matches Err(e) && e
                == Error::Transport),
            (exchange matches AppExchange::HttpError(s) ==> r matches Err(e) && e == Error::Http(
                s,
            )),
            (exchange matches AppExchange::DecodeFailed ==> r matches Err(e) && e == Error::Decode),
    {
        match exchange {
            AppExchange::Token(t) => Ok(t),
            AppExchange::TransportFailed => Err(Error::Transport),
            AppExchange::HttpError(s) => Err(Error::Http(s)),
            AppExchange::DecodeFailed => Err(Error::Decode),
        }
    }
}

impl UserProfile {
    /// The v2.0 device-code endpoint of this profile's tenant.
    pub open spec fn spec_device_code_url(&self) -> Seq<char> {
        self.authority@ + "/"@ + self.tenant@ + "/oauth2/v2.0/devicecode"@
    }

    /// The v2.0 token endpoint of this profile's tenant, used both for
    /// polling and for silent refresh.
    pub open spec fn spec_token_url(&self) -> Seq<char> {
        self.authority@ + "/"@ + self.tenant@ + "/oauth2/v2.0/token"@
    }

    /// The device-code request: one POST carrying exactly the client id
    /// and the scope.  Only a valid profile may attempt acquisition.
    pub fn device_code_request(&self) -> (r: TokenRequest)
        requires
            self.spec_is_valid(),
        ensures
            r.url@ == self.spec_device_code_url(),
            r.form@.len() == 2,
            r.form@[0].0@ == "client_id"@ && r.form@[0].1@ == self.client_id@,
            r.form@[1].0@ == "scope"@ && r.form@[1].1@ == self.scope@,
    {
        let url = self.authority.clone().concat("/").concat(self.tenant.as_str()).concat(
            "/oauth2/v2.0/devicecode",
        );
        let mut form: Vec<(String, String)> = Vec::new();
        form.push((String::from_str("client_id"), self.client_id.clone()));
        form.push((String::from_str("scope"), self.scope.clone()));
        TokenRequest { url, form }
    }

    /// The fate of a device-code request: fatal on anything but a decoded
    /// success body.
    pub fn grant_from_exchange(exchange: DeviceCodeExchange) -> (r: Result<DeviceCodeGrant, Error>)
        ensures
            (exchange matches DeviceCodeExchange::Granted(g) ==> r matches Ok(rg) && rg == g),
            (exchange matches DeviceCodeExchange::TransportFailed ==> r matches Err(e) && e
                == Error::Transport),
            (exchange matches DeviceCodeExchange::HttpError(s) ==> r matches Err(e) && e
                == Error::Http(s)),
            (exchange matches DeviceCodeExchange::DecodeFailed ==> r matches Err(e) && e
                == Error::Decode),
    {
        match exchange {
            DeviceCodeExchange::Granted(g) => Ok(g),
            DeviceCodeExchange::TransportFailed => Err(Error::Transport),
            DeviceCodeExchange::HttpError(s) => Err(Error::Http(s)),
            DeviceCodeExchange::DecodeFailed => Err(Error::Decode),
        }
    }

    /// One poll POST: the device-code grant type, the client id and the
    /// device code, against the token endpoint.
    pub fn poll_request(&self, device_code: &str) -> (r: TokenRequest)
        requires
            self.spec_is_valid(),
        ensures
            r.url@ == self.spec_token_url(),
            r.form@.len() == 3,
            r.form@[0].0@ == "grant_type"@ && r.form@[0].1@
                == "urn:ietf:params:oauth:grant-type:device_code"@,
            r.form@[1].0@ == "client_id"@ && r.form@[1].1@ == self.client_id@,
            r.form@[2].0@ == "device_code"@ && r.form@[2].1@ == device_code@,
    {
        let url = self.authority.clone().concat("/").concat(self.tenant.as_str()).concat(
            "/oauth2/v2.0/token",
        );
        let mut form: Vec<(String, String)> = Vec::new();
        form.push(
            (
                String::from_str("grant_type"),
                String::from_str("urn:ietf:params:oauth:grant-type:device_code"),
            ),
        );
        form.push((String::from_str("client_id"), self.client_id.clone()));
        form.push((String::from_str("device_code"), device_code.to_owned()));
        TokenRequest { url, form }
    }

    /// The silent-refresh exchange: one POST carrying exactly the client
    /// id, the scope, the previous refresh token and the refresh grant
    /// type.
    pub fn refresh_request(&self, token: &UserToken) -> (r: TokenRequest)
        ensures
            r.url@ == self.spec_token_url(),
            r.form@.len() == 4,
            r.form@[0].0@ == "client_id"@ && r.form@[0].1@ == self.client_id@,
            r.form@[1].0@ == "scope"@ && r.form@[1].1@ == self.scope@,
            r.form@[2].0@ == "refresh_token"@ && r.form@[2].1@ == token.refresh_token@,
            r.form@[3].0@ == "grant_type"@ && r.form@[3].1@ == "refresh_token"@,
    {
        let url = self.authority.clone().concat("/").concat(self.tenant.as_str()).concat(
            "/oauth2/v2.0/token",
        );
        let mut form: Vec<(String, String)> = Vec::new();
        form.push((String::from_str("client_id"), self.client_id.clone()));
        form.push((String::from_str("scope"), self.scope.clone()));
        form.push((String::from_str("refresh_token"), token.refresh_token.clone()));
        form.push((String::from_str("grant_type"), String::from_str("refresh_token")));
        TokenRequest { url, form }
    }

    /// The fate of a silent refresh: a fresh token only for a decoded body
    /// without a provider error; every failure — transport, non-success
    /// status, decode, or provider-returned error — yields nothing, and
    /// the caller falls back to the full device-code flow.
    pub fn refresh_token(&self, exchange: RefreshExchange, now: i64) -> (r: Option<UserToken>)
        ensures
            r == spec_refreshed(exchange, now as int),
    {
        match exchange {
            RefreshExchange::Body(t) => {
                if t.error.as_str().is_empty() {
                    let expires_on = absolute_expiry(now, t.expires_in);
                    Some(
                        UserToken {
                            error: t.error,
                            scope: t.scope,
                            id_token: t.id_token,
                            access_token: t.access_token,
                            refresh_token: t.refresh_token,
                            expires_in: t.expires_in,
                            expires_on,
                        },
                    )
                } else {
                    None
                }
            },
            _ => None,
        }
    }
}

/// The token a refresh exchange yields, if any: the decoded body with its
/// expiry recomputed locally from the relative lifetime, and only when the
/// body carries no provider error.
pub open spec fn spec_refreshed(exchange: RefreshExchange, now: int) -> Option<UserToken> {
    match exchange {
        RefreshExchange::Body(t) => if t.error@.len() == 0 {
            Some(
                UserToken {
                    expires_on: spec_clamped_expiry(now, t.expires_in as int) as i64,
                    ..t
                },
            )
        } else {
            None
        },
        _ => None,
    }
}

/// The iteration budget of a poll loop: the device code's own lifetime
/// divided by the poll interval, so polling stops once that lifetime has
/// elapsed.  A server-advised interval of zero gets one attempt per second
/// of lifetime.
pub open spec fn spec_poll_budget(expires_in: u64, interval: u64) -> int {
    if interval == 0 {
        expires_in as int
    } else {
        expires_in as int / interval as int
    }
}

/// How the poll loop advances on a still-pending answer (or a tolerated
/// transport failure): one attempt is consumed, and either an
/// interval-long sleep is requested or — when that was the last attempt —
/// the flow times out fatally.
pub open spec fn spec_pending_step(
    before: PollState,
    after: PollState,
    r: Result<PollProgress, Error>,
) -> bool {
    &&& after.attempts_left == before.attempts_left - 1
    &&& if before.attempts_left > 1 {
        r matches Ok(PollProgress::Sleep(d)) && d == before.interval_seconds
    } else {
        r matches Err(Error::TimedOut)
    }
}

/// The polling loop's state: how many attempts remain and how long to
/// sleep between them.
#[derive(Clone, Copy, Debug, PartialEq, Eq, Structural)]
pub struct PollState {
    pub attempts_left: u64,
    pub interval_seconds: u64,
}

/// What one poll answer means for the loop.
#[derive(Debug, PartialEq)]
pub enum PollProgress {
    /// The user completed the interactive step: the finished token, with
    /// its absolute expiry computed from the relative lifetime.
    Obtained(UserToken),
    /// Authorization is still pending: sleep this many seconds, then poll
    /// again.
    Sleep(u64),
}

impl PollState {
    /// A fresh poll loop for one device-code grant, honoring the
    /// server-advised cadence exactly: no backoff, no jitter.
    pub fn new(grant: &DeviceCodeGrant) -> (r: PollState)
        ensures
            r.attempts_left as int == spec_poll_budget(grant.expires_in, grant.interval),
            r.interval_seconds == grant.interval,
    {
        let attempts_left = if grant.interval == 0 {
            grant.expires_in
        } else {
            grant.expires_in / grant.interval
        };
        PollState { attempts_left, interval_seconds: grant.interval }
    }

    /// Whether the loop may send another poll; once this is false the
    /// device code's lifetime is spent and the flow has timed out.
    pub fn can_poll(&self) -> (r: bool)
        ensures
            r == (self.attempts_left > 0),
    {
        self.attempts_left > 0
    }

    /// Advances the loop by one poll answer:
    ///
    /// - a decoded body without a provider error finishes the flow with
    ///   the token, its expiry recomputed locally;
    /// - `authorization_pending` — or a transport failure, which is
    ///   tolerated the same way during polling — consumes one attempt and
    ///   asks for an interval-long sleep, or times out fatally when it was
    ///   the last attempt;
    /// - any other provider error is an immediate fatal denial;
    /// - an undecodable body is a fatal decode error.
    pub fn on_exchange(&mut self, exchange: PollExchange, now: i64) -> (r: Result<
        PollProgress,
        Error,
    >)
        requires
            old(self).attempts_left > 0,
        ensures
            final(self).interval_seconds == old(self).interval_seconds,
            (exchange matches PollExchange::Body(t) ==> ((t.error@.len() == 0 ==> (r matches Ok(
                PollProgress::Obtained(tok),
            ) && tok.error@ == t.error@ && tok.scope@ == t.scope@ && tok.id_token@ == t.id_token@
                && tok.access_token@ == t.access_token@ && tok.refresh_token@ == t.refresh_token@
                && tok.expires_in == t.expires_in && tok.expires_on as int == spec_clamped_expiry(
                now as int,
                t.expires_in as int,
            ) && *final(self) == *old(self))) && (t.error@.len() > 0 && t.error@
                != "authorization_pending"@ ==> (r matches Err(Error::Denied(msg)) && msg@
                == t.error@ && *final(self) == *old(self))) && (t.error@
                == "authorization_pending"@ ==> spec_pending_step(
                *old(self),
                *final(self),
                r,
            )))),
            (exchange matches PollExchange::TransportFailed ==> spec_pending_step(
                *old(self),
                *final(self),
                r,
            )),
            (exchange matches PollExchange::DecodeFailed ==> r matches Err(e) && e == Error::Decode
                && *final(self) == *old(self)),
    {
        proof {
            reveal_strlit("authorization_pending");
        }
        match exchange {
            PollExchange::Body(t) => {
                if t.error.as_str().is_empty() {
                    let expires_on = absolute_expiry(now, t.expires_in);
                    Ok(
                        PollProgress::Obtained(
                            UserToken {
                                error: t.error,
                                scope: t.scope,
                                id_token: t.id_token,
                                access_token: t.access_token,
                                refresh_token: t.refresh_token,
                                expires_in: t.expires_in,
                                expires_on,
                            },
                        ),
                    )
                } else if str_eq(t.error.as_str(), "authorization_pending") {
                    self.attempts_left = self.attempts_left - 1;
                    if self.attempts_left == 0 {
                        Err(Error::TimedOut)
                    } else {
                        Ok(PollProgress::Sleep(self.interval_seconds))
                    }
                } else {
                    Err(Error::Denied(t.error))
                }
            },
            PollExchange::TransportFailed => {
                self.attempts_left = self.attempts_left - 1;
                if self.attempts_left == 0 {
                    Err(Error::TimedOut)
                } else {
                    Ok(PollProgress::Sleep(self.interval_seconds))
                }
            },
            PollExchange::DecodeFailed => Err(Error::Decode),
        }
    }
}

} // verus!
