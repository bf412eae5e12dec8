//! The laws the credential subsystem obeys, stated and proved over the same
//! spec functions the public contracts use.

use vstd::prelude::*;

use crate::api::{spec_is_success, token_reply_spec};
use crate::config::{Config, GrantType};
use crate::entity::{token_of, AccessToken};
use crate::errors::{AuthError, Error};
use crate::json::{json_doc, Jv};
use crate::services::authorization::{token_resolution, TokenRequest, TokenStep};
use crate::{effective_refresh, refresh_resolution};

verus! {

/// Law: strategy resolution fails for no configuration but a password grant
/// missing its username or its password, and every failure is an
/// authentication error.
pub proof fn lemma_resolution_totality(c: Config, r: Result<TokenStep, Error>)
    requires
        token_resolution(c, r),
    ensures
        r is Err <==> (c.access_token is None && c.refresh_token is None && c.grant_type
            == GrantType::Password && (c.username is None || c.password is None)),
        r is Err ==> r matches Err(Error::Auth(_)),
{
}

/// Law: a configuration with a pre-supplied access token resolves locally to
/// a credential carrying exactly that token; in particular, a non-empty
/// configured token yields a credential with a non-empty access token.
pub proof fn lemma_presupplied_token_carried(c: Config, r: Result<TokenStep, Error>)
    requires
        token_resolution(c, r),
        c.access_token is Some,
    ensures
        r matches Ok(TokenStep::Ready(t)) && t@.access_token == c.access_token->0@,
{
}

/// Law: a successful reply to a grant or refresh exchange yields exactly the
/// credential its body carries; in particular, a body with a non-empty
/// `access_token` member yields a credential with a non-empty access token.
pub proof fn lemma_exchange_token_carried(
    status: u16,
    body: Seq<char>,
    r: Result<AccessToken, Error>,
    j: Jv,
)
    requires
        token_reply_spec(status, body, r),
        spec_is_success(status),
        json_doc(body) == Some(j),
        token_of(j) is Some,
    ensures
        r matches Ok(t) && t@ == token_of(j)->0,
{
}

/// Law: the password grant fails on a missing username before a missing
/// password, and the two failures are distinct values.
pub proof fn lemma_password_failures_distinguishable(
    c1: Config,
    c2: Config,
    r1: Result<TokenStep, Error>,
    r2: Result<TokenStep, Error>,
)
    requires
        token_resolution(c1, r1),
        c1.access_token is None,
        c1.refresh_token is None,
        c1.grant_type == GrantType::Password,
        c1.username is None,
        token_resolution(c2, r2),
        c2.access_token is None,
        c2.refresh_token is None,
        c2.grant_type == GrantType::Password,
        c2.username is Some,
        c2.password is None,
    ensures
        r1 matches Err(Error::Auth(AuthError::MissingUsername)),
        r2 matches Err(Error::Auth(AuthError::MissingPassword)),
        match (r1, r2) {
            (Err(Error::Auth(a1)), Err(Error::Auth(a2))) => a1 != a2,
            _ => false,
        },
{
}

/// Law: refreshing with an explicit token and refreshing by fallback to the
/// stored token decide the same exchange whenever the stored token equals the
/// explicit one.
pub proof fn lemma_refresh_fallback_equivalence(
    c: Config,
    stored: Option<Seq<char>>,
    token: Seq<char>,
    r1: Result<TokenRequest, Error>,
    r2: Result<TokenRequest, Error>,
)
    requires
        stored == Some(token),
        refresh_resolution(c, Some(token), stored, r1),
        refresh_resolution(c, None, stored, r2),
    ensures
        r1 matches Ok(q1) && r2 matches Ok(q2) && q1@ == q2@,
{
}

/// Law: interpreting a token reply is a function of the reply alone — two
/// interpretations of one reply agree — so the credential stored by a
/// successful refresh never depends on the credential it replaces.
pub proof fn lemma_refresh_replacement_determined(
    status: u16,
    body: Seq<char>,
    r1: Result<AccessToken, Error>,
    r2: Result<AccessToken, Error>,
)
    requires
        token_reply_spec(status, body, r1),
        token_reply_spec(status, body, r2),
        r1 is Ok,
    ensures
        r1 matches Ok(t1) && r2 matches Ok(t2) && t1@ == t2@,
{
}

/// Law: a stored credential differs from its predecessor whenever the reply's
/// access token differs from the stored one, so a refresh that answers with a
/// fresh token always changes the session's credential.
pub proof fn lemma_refresh_changes_credential(pre: AccessToken, post: AccessToken)
    requires
        post@.access_token != pre@.access_token,
    ensures
        post@ != pre@,
{
}

/// Law: with no stored and no explicit refresh token, deciding a refresh
/// fails with the authentication error and prescribes no exchange.
pub proof fn lemma_refresh_requires_token(c: Config, r: Result<TokenRequest, Error>)
    requires
        refresh_resolution(c, None, None, r),
    ensures
        r matches Err(Error::Auth(AuthError::NoRefreshToken)),
{
    assert(effective_refresh(None, None) is None);
}

} // verus!
