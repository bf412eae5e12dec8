//! A typed client for the SumUp payment-processing HTTP API.
//!
//! The crate covers the credential-and-request core of the client: obtaining
//! and refreshing bearer credentials under the supported grant strategies, and
//! the request/response pipeline that attaches credentials, frames request
//! payloads, and decodes either a typed success value or one of the
//! heterogeneous error shapes the remote service returns.
//!
//! The crate itself performs no I/O.  Every operation that would reach the
//! network is split in two: a verified function builds the outbound request,
//! the caller's surroundings perform the round trip, and a verified function
//! interprets the status and body that came back.

pub mod api;
pub mod config;
pub mod entity;
pub mod errors;
pub mod json;
pub mod laws;
pub mod services;
pub mod text;

pub use config::Config;
pub use entity::{AccessToken, PaymentType, Status, Type};
pub use errors::{AuthError, Error, Message, Response};

use vstd::prelude::*;

use crate::api::{token_reply_spec, Api};
use crate::config::GrantType;
use crate::services::authorization::{
    refresh_payload_model, token_endpoint, token_resolution, Authorization, TokenRequest,
    TokenStep,
};

verus! {

/// The characters of an optional borrowed string.
pub open spec fn opt_str_view(o: Option<&str>) -> Option<Seq<char>> {
    match o {
        Some(s) => Some(s@),
        None => None,
    }
}

/// The refresh token a refresh call uses: the explicit one when given,
/// otherwise the stored one.
pub open spec fn effective_refresh(explicit: Option<Seq<char>>, stored: Option<Seq<char>>) -> Option<
    Seq<char>,
> {
    if explicit is Some {
        explicit
    } else {
        stored
    }
}

/// What deciding a refresh yields: with a token at hand, the refresh exchange
/// for it; with none, the authentication failure — and, the result carrying no
/// request, no exchange to perform.
pub open spec fn refresh_resolution(
    c: Config,
    explicit: Option<Seq<char>>,
    stored: Option<Seq<char>>,
    r: Result<TokenRequest, Error>,
) -> bool {
    match effective_refresh(explicit, stored) {
        Some(token) => r matches Ok(q) && token_endpoint(q@) && q.payload@ == refresh_payload_model(
            c,
            token,
        ),
        None => r matches Err(Error::Auth(AuthError::NoRefreshToken)),
    }
}

/// A client session: the current credential, the dispatcher, and the
/// configuration it was resolved from.  The credential is the only long-lived
/// state; a successful refresh replaces it wholesale.
#[derive(Clone, Debug)]
pub struct SumUp {
    pub access_token: AccessToken,
    pub api: Api,
    pub config: Config,
}

/// Starting a session: complete at once when the configuration resolves
/// locally, otherwise waiting on one token exchange.
#[derive(Clone, Debug)]
pub enum SessionStart {
    Ready(SumUp),
    Exchange(PendingSession),
}

/// A session waiting for its token exchange to be performed.
#[derive(Clone, Debug)]
pub struct PendingSession {
    pub api: Api,
    pub config: Config,
    pub request: TokenRequest,
}

impl PendingSession {
    /// The exchange to perform.
    pub fn request(&self) -> (r: &TokenRequest)
        ensures
            *r == self.request,
    {
        &self.request
    }

    /// Build the session from the exchange's reply.
    pub fn complete(self, status: u16, body: &str) -> (r: Result<SumUp, Error>)
        ensures
            match r {
                Ok(s) => s.api == self.api && s.config == self.config && token_reply_spec(
                    status,
                    body@,
                    Ok(s.access_token),
                ),
                Err(e) => token_reply_spec(status, body@, Err(e)),
            },
    {
        match Api::token_response(status, body) {
            Ok(t) => Ok(SumUp { access_token: t, api: self.api, config: self.config }),
            Err(e) => Err(e),
        }
    }
}

impl SumUp {
    /// Start a session for the authorization-code grant.
    pub fn new(client_id: &str, client_secret: &str, code: &str) -> (r: Result<
        SessionStart,
        Error,
    >)
        ensures
            match r {
                Ok(SessionStart::Exchange(p)) => p.config.client_id@ == client_id@
                    && p.config.client_secret@ == client_secret@ && p.config.code.deep_view()
                    == Some(code@) && p.config.grant_type == GrantType::AuthorizationCode
                    && p.config.access_token is None && p.config.refresh_token is None
                    && token_resolution(p.config, Ok(TokenStep::Exchange(p.request))),
                _ => false,
            },
    {
        let config = Config::new(client_id, client_secret, code);
        Self::from(config)
    }

    /// Start a session for a configuration: resolve the credential, or hand
    /// back the exchange that obtains it.
    pub fn from(config: Config) -> (r: Result<SessionStart, Error>)
        ensures
            match r {
                Ok(SessionStart::Ready(s)) => s.config == config && token_resolution(
                    config,
                    Ok(TokenStep::Ready(s.access_token)),
                ),
                Ok(SessionStart::Exchange(p)) => p.config == config && token_resolution(
                    config,
                    Ok(TokenStep::Exchange(p.request)),
                ),
                Err(e) => token_resolution(config, Err(e)),
            },
    {
        let api = Api::new();
        let step = {
            let authorization = Authorization::new(&api, &config);
            authorization.token()
        };
        match step {
            Ok(TokenStep::Ready(t)) => Ok(
                SessionStart::Ready(SumUp { access_token: t, api, config }),
            ),
            Ok(TokenStep::Exchange(q)) => Ok(
                SessionStart::Exchange(PendingSession { api, config, request: q }),
            ),
            Err(e) => Err(e),
        }
    }

    /// The session's current credential.
    pub fn access_token(&self) -> (r: &AccessToken)
        ensures
            *r == self.access_token,
    {
        &self.access_token
    }

    /// Decide a refresh: the exchange for the explicit token, falling back to
    /// the stored one; with neither at hand, the authentication failure.  No
    /// request leaves this function on failure, so nothing reaches the
    /// network, and the stored credential is untouched either way.
    pub fn refresh_token(&self, refresh_token: Option<&str>) -> (r: Result<TokenRequest, Error>)
        ensures
            refresh_resolution(
                self.config,
                opt_str_view(refresh_token),
                self.access_token.refresh_token.deep_view(),
                r,
            ),
    {
        let token: &str = match refresh_token {
            Some(t) => t,
            None => match &self.access_token.refresh_token {
                Some(t) => t.as_str(),
                None => {
                    return Err(Error::Auth(AuthError::NoRefreshToken));
                },
            },
        };
        Ok(self.authorization().refresh_token(token))
    }

    /// Store the credential a refresh exchange's reply carries.  On success
    /// the old credential is discarded, never merged: the new one is decoded
    /// from the reply alone.  On failure the session is unchanged.
    pub fn apply_refresh(&mut self, status: u16, body: &str) -> (r: Result<(), Error>)
        ensures
            final(self).api == old(self).api,
            final(self).config == old(self).config,
            match r {
                Ok(_) => token_reply_spec(status, body@, Ok(final(self).access_token)),
                Err(e) => final(self).access_token == old(self).access_token && token_reply_spec(
                    status,
                    body@,
                    Err(e),
                ),
            },
    {
        match Api::token_response(status, body) {
            Ok(t) => {
                self.access_token = t;
                Ok(())
            },
            Err(e) => Err(e),
        }
    }

    /// The merchant-account operations.
    pub fn account(&self) -> (r: services::Account<'_>)
        ensures
            *r.api == self.api,
            *r.access_token == self.access_token,
    {
        services::Account::new(&self.api, &self.access_token)
    }

    /// Credential acquisition over this session's configuration.
    pub fn authorization(&self) -> (r: services::Authorization<'_>)
        ensures
            *r.api == self.api,
            *r.config == self.config,
    {
        services::Authorization::new(&self.api, &self.config)
    }

    /// The checkout operations.
    pub fn checkout(&self) -> (r: services::Checkout<'_>)
        ensures
            *r.api == self.api,
            *r.access_token == self.access_token,
    {
        services::Checkout::new(&self.api, &self.access_token)
    }

    /// The customer operations.
    pub fn customer(&self) -> (r: services::Customer<'_>)
        ensures
            *r.api == self.api,
            *r.access_token == self.access_token,
    {
        services::Customer::new(&self.api, &self.access_token)
    }

    /// The merchant payment-method operations.
    pub fn merchant(&self) -> (r: services::Merchant<'_>)
        ensures
            *r.api == self.api,
            *r.access_token == self.access_token,
    {
        services::Merchant::new(&self.api, &self.access_token)
    }

    /// The payout operations.
    pub fn payouts(&self) -> (r: services::Payouts<'_>)
        ensures
            *r.api == self.api,
            *r.access_token == self.access_token,
    {
        services::Payouts::new(&self.api, &self.access_token)
    }

    /// The personal-profile operations.
    pub fn personal(&self) -> (r: services::Personal<'_>)
        ensures
            *r.api == self.api,
            *r.access_token == self.access_token,
    {
        services::Personal::new(&self.api, &self.access_token)
    }

    /// The subaccount operations.
    pub fn subaccounts(&self) -> (r: services::Subaccounts<'_>)
        ensures
            *r.api == self.api,
            *r.access_token == self.access_token,
    {
        services::Subaccounts::new(&self.api, &self.access_token)
    }

    /// The transaction operations.
    pub fn transactions(&self) -> (r: services::Transactions<'_>)
        ensures
            *r.api == self.api,
            *r.access_token == self.access_token,
    {
        services::Transactions::new(&self.api, &self.access_token)
    }
}

} // verus!
