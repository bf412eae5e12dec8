//! The payment-method facade.

use vstd::prelude::*;

use crate::api::Api;
use crate::entity::AccessToken;

verus! {

/// The payment-method operations, bound to the dispatcher and the session's
/// credential.
#[derive(Clone, Debug)]
pub struct Merchant<'a> {
    pub api: &'a Api,
    pub access_token: &'a AccessToken,
}

impl<'a> Merchant<'a> {
    pub fn new(api: &'a Api, access_token: &'a AccessToken) -> (r: Self)
        ensures
            r.api == api,
            r.access_token == access_token,
    {
        Merchant { api, access_token }
    }
}

} // verus!
