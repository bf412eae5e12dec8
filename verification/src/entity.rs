//! The credential value and the small wire types the transaction filters
//! carry.

use vstd::prelude::*;
use vstd::string::StringExecFns;

use crate::json::{
    get_opt_str_field, get_opt_u64_field, get_req_str_field, json_model, opt_str_field,
    opt_u64_field, req_str_field, Jv,
};

verus! {

/// A bearer credential: the access token together with its refresh metadata
/// and expiry.  It is immutable; a refresh replaces the whole value.
#[derive(Clone, Debug, PartialEq, Eq)]
pub struct AccessToken {
    pub access_token: String,
    pub token_type: Option<String>,
    pub scope: Option<String>,
    pub refresh_token: Option<String>,
    pub expires_in: Option<u64>,
}

/// The abstract content of an [`AccessToken`].
pub struct TokenModel {
    pub access_token: Seq<char>,
    pub token_type: Option<Seq<char>>,
    pub scope: Option<Seq<char>>,
    pub refresh_token: Option<Seq<char>>,
    pub expires_in: Option<u64>,
}

impl View for AccessToken {
    type V = TokenModel;

    open spec fn view(&self) -> TokenModel {
        TokenModel {
            access_token: self.access_token@,
            token_type: self.token_type.deep_view(),
            scope: self.scope.deep_view(),
            refresh_token: self.refresh_token.deep_view(),
            expires_in: self.expires_in,
        }
    }
}

impl Default for AccessToken {
    /// An empty credential: no token, no metadata.
    fn default() -> (r: Self)
        ensures
            r@ == (TokenModel {
                access_token: Seq::<char>::empty(),
                token_type: None,
                scope: None,
                refresh_token: None,
                expires_in: None,
            }),
    {
        AccessToken {
            access_token: String::new(),
            token_type: None,
            scope: None,
            refresh_token: None,
            expires_in: None,
        }
    }
}

impl AccessToken {
    /// The value of the `Authorization` header this credential authenticates
    /// requests with.
    pub fn bearer(&self) -> (r: String)
        ensures
            r@ == "Bearer "@ + self.access_token@,
    {
        "Bearer ".to_owned().concat(self.access_token.as_str())
    }
}

/// What the token endpoint must reply for a credential to be accepted:
/// an object carrying at least an `access_token` string; the remaining
/// fields are optional, but must be well-typed when present.
pub open spec fn token_of(j: Jv) -> Option<TokenModel> {
    match j {
        Jv::Obj(m) => match (
            req_str_field(m, "access_token"@),
            opt_str_field(m, "token_type"@),
            opt_str_field(m, "scope"@),
            opt_str_field(m, "refresh_token"@),
            opt_u64_field(m, "expires_in"@),
        ) {
            (
                Some(access_token),
                Some(token_type),
                Some(scope),
                Some(refresh_token),
                Some(expires_in),
            ) => Some(TokenModel { access_token, token_type, scope, refresh_token, expires_in }),
            _ => None,
        },
        _ => None,
    }
}

/// Decode a token-endpoint reply value into a credential.
pub fn decode_access_token(v: &serde_json::Value) -> (r: Option<AccessToken>)
    ensures
        match r {
            Some(t) => token_of(json_model(*v)) == Some(t@),
            None => token_of(json_model(*v)) is None,
        },
{
    let access_token = match get_req_str_field(v, "access_token") {
        Some(s) => s,
        None => {
            return None;
        },
    };
    let token_type = match get_opt_str_field(v, "token_type") {
        Ok(o) => o,
        Err(_) => {
            return None;
        },
    };
    let scope = match get_opt_str_field(v, "scope") {
        Ok(o) => o,
        Err(_) => {
            return None;
        },
    };
    let refresh_token = match get_opt_str_field(v, "refresh_token") {
        Ok(o) => o,
        Err(_) => {
            return None;
        },
    };
    let expires_in = match get_opt_u64_field(v, "expires_in") {
        Ok(o) => o,
        Err(_) => {
            return None;
        },
    };
    Some(AccessToken { access_token, token_type, scope, refresh_token, expires_in })
}

/// A transaction status, by its wire name.
#[derive(Clone, Debug, PartialEq, Eq)]
pub struct Status(pub String);

/// A payment type, by its wire name.
#[derive(Clone, Debug, PartialEq, Eq)]
pub struct PaymentType(pub String);

/// A transaction type, by its wire name.
#[derive(Clone, Debug, PartialEq, Eq)]
pub struct Type(pub String);

impl View for Status {
    type V = Seq<char>;

    open spec fn view(&self) -> Seq<char> {
        self.0@
    }
}

impl DeepView for Status {
    type V = Seq<char>;

    open spec fn deep_view(&self) -> Seq<char> {
        self.0@
    }
}

impl View for PaymentType {
    type V = Seq<char>;

    open spec fn view(&self) -> Seq<char> {
        self.0@
    }
}

impl DeepView for PaymentType {
    type V = Seq<char>;

    open spec fn deep_view(&self) -> Seq<char> {
        self.0@
    }
}

impl View for Type {
    type V = Seq<char>;

    open spec fn view(&self) -> Seq<char> {
        self.0@
    }
}

impl DeepView for Type {
    type V = Seq<char>;

    open spec fn deep_view(&self) -> Seq<char> {
        self.0@
    }
}

} // verus!
