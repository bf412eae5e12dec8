//! The merchant-account facade.

use vstd::prelude::*;

use crate::api::Api;
use crate::entity::AccessToken;

verus! {

/// The merchant-account operations, bound to the dispatcher and the session's
/// credential.
#[derive(Clone, Debug)]
pub struct Account<'a> {
    pub api: &'a Api,
    pub access_token: &'a AccessToken,
}

impl<'a> Account<'a> {
    pub fn new(api: &'a Api, access_token: &'a AccessToken) -> (r: Self)
        ensures
            r.api == api,
            r.access_token == access_token,
    {
        Account { api, access_token }
    }
}

} // verus!
