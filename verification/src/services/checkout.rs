//! The checkout facade.

use vstd::prelude::*;

use crate::api::Api;
use crate::entity::AccessToken;

verus! {

/// The checkout operations, bound to the dispatcher and the session's
/// credential.
#[derive(Clone, Debug)]
pub struct Checkout<'a> {
    pub api: &'a Api,
    pub access_token: &'a AccessToken,
}

impl<'a> Checkout<'a> {
    pub fn new(api: &'a Api, access_token: &'a AccessToken) -> (r: Self)
        ensures
            r.api == api,
            r.access_token == access_token,
    {
        Checkout { api, access_token }
    }
}

} // verus!
