//! Credential acquisition: strategy resolution and refresh.
//!
//! Resolution is a pure function of the configuration.  A pre-supplied access
//! token wins over a pre-supplied refresh token, which wins over the grant
//! strategies; only the grant strategies reach the network, and those hand
//! back the token-endpoint exchange to run rather than running it.

use vstd::prelude::*;
use vstd::string::StringExecFns;

use crate::api::{Api, Method};
use crate::config::{clone_opt_string, Config, GrantType};
use crate::entity::{AccessToken, TokenModel};
use crate::errors::{AuthError, Error};

verus! {

/// The payload of a token-endpoint exchange, ready to be serialized as a
/// JSON object with exactly these members.
#[derive(Clone, Debug, PartialEq, Eq)]
pub struct TokenPayload {
    pub grant_type: String,
    pub client_id: String,
    pub client_secret: String,
    pub code: Option<String>,
    pub scope: Option<String>,
    pub username: Option<String>,
    pub password: Option<String>,
    pub refresh_token: Option<String>,
}

/// The abstract content of a [`TokenPayload`].
pub struct PayloadModel {
    pub grant_type: Seq<char>,
    pub client_id: Seq<char>,
    pub client_secret: Seq<char>,
    pub code: Option<Seq<char>>,
    pub scope: Option<Seq<char>>,
    pub username: Option<Seq<char>>,
    pub password: Option<Seq<char>>,
    pub refresh_token: Option<Seq<char>>,
}

impl View for TokenPayload {
    type V = PayloadModel;

    open spec fn view(&self) -> PayloadModel {
        PayloadModel {
            grant_type: self.grant_type@,
            client_id: self.client_id@,
            client_secret: self.client_secret@,
            code: self.code.deep_view(),
            scope: self.scope.deep_view(),
            username: self.username.deep_view(),
            password: self.password.deep_view(),
            refresh_token: self.refresh_token.deep_view(),
        }
    }
}

/// A token-endpoint exchange to be performed by the caller's surroundings.
#[derive(Clone, Debug, PartialEq, Eq)]
pub struct TokenRequest {
    pub method: Method,
    pub url: String,
    pub payload: TokenPayload,
}

/// The abstract content of a [`TokenRequest`].
pub struct TokenRequestModel {
    pub method: Method,
    pub url: Seq<char>,
    pub payload: PayloadModel,
}

impl View for TokenRequest {
    type V = TokenRequestModel;

    open spec fn view(&self) -> TokenRequestModel {
        TokenRequestModel { method: self.method, url: self.url@, payload: self.payload@ }
    }
}

/// The outcome of strategy resolution: a credential synthesized locally, or
/// the exchange that obtains one.
#[derive(Clone, Debug)]
pub enum TokenStep {
    Ready(AccessToken),
    Exchange(TokenRequest),
}

/// Whether an exchange goes to the token endpoint.
pub open spec fn token_endpoint(q: TokenRequestModel) -> bool {
    q.method == Method::Post && q.url == "https://api.sumup.com/token"@
}

/// The payload of the authorization-code grant.
pub open spec fn code_payload_model(c: Config) -> PayloadModel {
    PayloadModel {
        grant_type: "authorization_code"@,
        client_id: c.client_id@,
        client_secret: c.client_secret@,
        code: c.code.deep_view(),
        scope: None,
        username: None,
        password: None,
        refresh_token: None,
    }
}

/// The payload of the client-credentials grant.
pub open spec fn client_credentials_payload_model(c: Config) -> PayloadModel {
    PayloadModel {
        grant_type: "client_credentials"@,
        client_id: c.client_id@,
        client_secret: c.client_secret@,
        code: None,
        scope: c.scopes.deep_view(),
        username: None,
        password: None,
        refresh_token: None,
    }
}

/// The payload of the password grant.
pub open spec fn password_payload_model(c: Config) -> PayloadModel {
    PayloadModel {
        grant_type: "password"@,
        client_id: c.client_id@,
        client_secret: c.client_secret@,
        code: None,
        scope: c.scopes.deep_view(),
        username: c.username.deep_view(),
        password: c.password.deep_view(),
        refresh_token: None,
    }
}

/// The payload of a refresh exchange for a given refresh token.
pub open spec fn refresh_payload_model(c: Config, token: Seq<char>) -> PayloadModel {
    PayloadModel {
        grant_type: "refresh_token"@,
        client_id: c.client_id@,
        client_secret: c.client_secret@,
        code: None,
        scope: c.scopes.deep_view(),
        username: None,
        password: None,
        refresh_token: Some(token),
    }
}

/// The credential synthesized from a pre-supplied access token: scope and
/// refresh token copied from the configuration, expiry forced to zero so the
/// credential counts as immediately stale.
pub open spec fn presupplied_access_model(c: Config) -> TokenModel {
    TokenModel {
        access_token: c.access_token->0@,
        token_type: None,
        scope: c.scopes.deep_view(),
        refresh_token: c.refresh_token.deep_view(),
        expires_in: Some(0),
    }
}

/// The degenerate credential synthesized from a pre-supplied refresh token
/// alone: no access token yet, expiry forced to zero; callers must refresh
/// before use.
pub open spec fn presupplied_refresh_model(c: Config) -> TokenModel {
    TokenModel {
        access_token: Seq::<char>::empty(),
        token_type: None,
        scope: c.scopes.deep_view(),
        refresh_token: Some(c.refresh_token->0@),
        expires_in: Some(0),
    }
}

/// What strategy resolution yields for a configuration, covering every case:
/// the pre-supplied paths synthesize a credential locally, the grant paths
/// hand back the exchange to run, and the password grant fails on a missing
/// username before a missing password.
pub open spec fn token_resolution(c: Config, r: Result<TokenStep, Error>) -> bool {
    match c.access_token {
        Some(_) => r matches Ok(TokenStep::Ready(t)) && t@ == presupplied_access_model(c),
        None => match c.refresh_token {
            Some(_) => r matches Ok(TokenStep::Ready(t)) && t@ == presupplied_refresh_model(c),
            None => match c.grant_type {
                GrantType::AuthorizationCode => r matches Ok(TokenStep::Exchange(q))
                    && token_endpoint(q@) && q.payload@ == code_payload_model(c),
                GrantType::ClientCredentials => r matches Ok(TokenStep::Exchange(q))
                    && token_endpoint(q@) && q.payload@ == client_credentials_payload_model(c),
                GrantType::Password => match (c.username, c.password) {
                    (None, _) => r matches Err(Error::Auth(AuthError::MissingUsername)),
                    (Some(_), None) => r matches Err(Error::Auth(AuthError::MissingPassword)),
                    (Some(_), Some(_)) => r matches Ok(TokenStep::Exchange(q)) && token_endpoint(
                        q@,
                    ) && q.payload@ == password_payload_model(c),
                },
            },
        },
    }
}

/// Strategy resolution over a configuration.  It holds no state of its own.
#[derive(Clone, Debug)]
pub struct Authorization<'a> {
    pub api: &'a Api,
    pub config: &'a Config,
}

impl<'a> Authorization<'a> {
    pub fn new(api: &'a Api, config: &'a Config) -> (r: Self)
        ensures
            r.api == api,
            r.config == config,
    {
        Authorization { api, config }
    }

    /// Resolve the configuration to a credential or to the exchange that
    /// obtains one, in the fixed precedence order: pre-supplied access token,
    /// pre-supplied refresh token, grant strategy.
    pub fn token(&self) -> (r: Result<TokenStep, Error>)
        ensures
            token_resolution(*self.config, r),
    {
        if let Some(access_token) = &self.config.access_token {
            let t = AccessToken {
                access_token: access_token.clone(),
                token_type: None,
                scope: clone_opt_string(&self.config.scopes),
                refresh_token: clone_opt_string(&self.config.refresh_token),
                expires_in: Some(0),
            };
            Ok(TokenStep::Ready(t))
        } else if let Some(refresh_token) = &self.config.refresh_token {
            let t = AccessToken {
                access_token: String::new(),
                token_type: None,
                scope: clone_opt_string(&self.config.scopes),
                refresh_token: Some(refresh_token.clone()),
                expires_in: Some(0),
            };
            Ok(TokenStep::Ready(t))
        } else {
            match self.config.grant_type {
                GrantType::AuthorizationCode => Ok(TokenStep::Exchange(self.token_by_code())),
                GrantType::ClientCredentials => Ok(
                    TokenStep::Exchange(self.token_by_client_credentials()),
                ),
                GrantType::Password => match self.token_password() {
                    Ok(q) => Ok(TokenStep::Exchange(q)),
                    Err(e) => Err(e),
                },
            }
        }
    }

    fn token_by_code(&self) -> (q: TokenRequest)
        ensures
            token_endpoint(q@),
            q.payload@ == code_payload_model(*self.config),
    {
        let payload = TokenPayload {
            grant_type: "authorization_code".to_owned(),
            client_id: self.config.client_id.clone(),
            client_secret: self.config.client_secret.clone(),
            code: clone_opt_string(&self.config.code),
            scope: None,
            username: None,
            password: None,
            refresh_token: None,
        };
        self.api.token(payload)
    }

    fn token_by_client_credentials(&self) -> (q: TokenRequest)
        ensures
            token_endpoint(q@),
            q.payload@ == client_credentials_payload_model(*self.config),
    {
        let payload = TokenPayload {
            grant_type: "client_credentials".to_owned(),
            client_id: self.config.client_id.clone(),
            client_secret: self.config.client_secret.clone(),
            code: None,
            scope: clone_opt_string(&self.config.scopes),
            username: None,
            password: None,
            refresh_token: None,
        };
        self.api.token(payload)
    }

    fn token_password(&self) -> (r: Result<TokenRequest, Error>)
        ensures
            match (self.config.username, self.config.password) {
                (None, _) => r matches Err(Error::Auth(AuthError::MissingUsername)),
                (Some(_), None) => r matches Err(Error::Auth(AuthError::MissingPassword)),
                (Some(_), Some(_)) => r matches Ok(q) && token_endpoint(q@) && q.payload@
                    == password_payload_model(*self.config),
            },
    {
        let username = match &self.config.username {
            Some(u) => u,
            None => {
                return Err(Error::Auth(AuthError::MissingUsername));
            },
        };
        let password = match &self.config.password {
            Some(p) => p,
            None => {
                return Err(Error::Auth(AuthError::MissingPassword));
            },
        };
        let payload = TokenPayload {
            grant_type: "password".to_owned(),
            client_id: self.config.client_id.clone(),
            client_secret: self.config.client_secret.clone(),
            code: None,
            scope: clone_opt_string(&self.config.scopes),
            username: Some(username.clone()),
            password: Some(password.clone()),
            refresh_token: None,
        };
        Ok(self.api.token(payload))
    }

    /// The refresh exchange for a refresh token the caller already holds.
    pub(crate) fn refresh_token(&self, refresh_token: &str) -> (q: TokenRequest)
        ensures
            token_endpoint(q@),
            q.payload@ == refresh_payload_model(*self.config, refresh_token@),
    {
        let payload = TokenPayload {
            grant_type: "refresh_token".to_owned(),
            client_id: self.config.client_id.clone(),
            client_secret: self.config.client_secret.clone(),
            code: None,
            scope: clone_opt_string(&self.config.scopes),
            username: None,
            password: None,
            refresh_token: Some(refresh_token.to_owned()),
        };
        self.api.token(payload)
    }
}

} // verus!
