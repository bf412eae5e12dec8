//! The client configuration consumed by credential acquisition.

use vstd::prelude::*;

verus! {

/// The grant strategy used when no token is pre-supplied.
#[derive(Clone, Copy, Debug, PartialEq, Eq, Structural)]
pub enum GrantType {
    AuthorizationCode,
    ClientCredentials,
    Password,
}

/// The client identity, the chosen grant strategy, and any pre-supplied
/// credentials or scopes.  Consumed read-only by credential acquisition.
#[derive(Clone, Debug)]
pub struct Config {
    pub client_id: String,
    pub client_secret: String,
    pub code: Option<String>,
    pub grant_type: GrantType,
    pub username: Option<String>,
    pub password: Option<String>,
    pub scopes: Option<String>,
    pub access_token: Option<String>,
    pub refresh_token: Option<String>,
}

impl Config {
    /// A configuration for the authorization-code grant.
    pub fn new(client_id: &str, client_secret: &str, code: &str) -> (r: Self)
        ensures
            r.client_id@ == client_id@,
            r.client_secret@ == client_secret@,
            r.code.deep_view() == Some(code@),
            r.grant_type == GrantType::AuthorizationCode,
            r.username is None,
            r.password is None,
            r.scopes is None,
            r.access_token is None,
            r.refresh_token is None,
    {
        Config {
            client_id: client_id.to_owned(),
            client_secret: client_secret.to_owned(),
            code: Some(code.to_owned()),
            grant_type: GrantType::AuthorizationCode,
            username: None,
            password: None,
            scopes: None,
            access_token: None,
            refresh_token: None,
        }
    }
}

impl Default for Config {
    /// An empty authorization-code configuration.
    fn default() -> (r: Self)
        ensures
            r.client_id@ == Seq::<char>::empty(),
            r.client_secret@ == Seq::<char>::empty(),
            r.code is None,
            r.grant_type == GrantType::AuthorizationCode,
            r.username is None,
            r.password is None,
            r.scopes is None,
            r.access_token is None,
            r.refresh_token is None,
    {
        Config {
            client_id: String::new(),
            client_secret: String::new(),
            code: None,
            grant_type: GrantType::AuthorizationCode,
            username: None,
            password: None,
            scopes: None,
            access_token: None,
            refresh_token: None,
        }
    }
}

/// A clone of an optional string, related to its source by content.
pub(crate) fn clone_opt_string(o: &Option<String>) -> (r: Option<String>)
    ensures
        r.deep_view() == o.deep_view(),
{
    match o {
        Some(s) => Some(s.clone()),
        None => None,
    }
}

} // verus!
