//! The customer facade.

use vstd::prelude::*;

use crate::api::Api;
use crate::entity::AccessToken;

verus! {

/// The customer operations, bound to the dispatcher and the session's
/// credential.
#[derive(Clone, Debug)]
pub struct Customer<'a> {
    pub api: &'a Api,
    pub access_token: &'a AccessToken,
}

impl<'a> Customer<'a> {
    pub fn new(api: &'a Api, access_token: &'a AccessToken) -> (r: Self)
        ensures
            r.api == api,
            r.access_token == access_token,
    {
        Customer { api, access_token }
    }
}

} // verus!
