//! The subaccount facade.

use vstd::prelude::*;

use crate::api::Api;
use crate::entity::AccessToken;

verus! {

/// The subaccount operations, bound to the dispatcher and the session's
/// credential.
#[derive(Clone, Debug)]
pub struct Subaccounts<'a> {
    pub api: &'a Api,
    pub access_token: &'a AccessToken,
}

impl<'a> Subaccounts<'a> {
    pub fn new(api: &'a Api, access_token: &'a AccessToken) -> (r: Self)
        ensures
            r.api == api,
            r.access_token == access_token,
    {
        Subaccounts { api, access_token }
    }
}

} // verus!
