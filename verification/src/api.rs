//! The request/response pipeline.
//!
//! The crate performs no I/O, so each remote operation is split in two: a
//! verified builder assembles the full [`HttpRequest`] (method, URL, body,
//! bearer header), the caller's surroundings perform the round trip, and a
//! verified function interprets the status and body text that came back.

use vstd::prelude::*;
use vstd::string::StringExecFns;

use crate::entity::{decode_access_token, token_of, AccessToken};
use crate::errors::{decode_error_body, error_reply_spec, Error};
use crate::json::{json_doc, parse_json};
use crate::services::authorization::{TokenPayload, TokenRequest};
use crate::services::transactions::{query_of, Filter};
use crate::text::{dec_digits, u32_string};

verus! {

/// The HTTP methods the service's operations use.
#[derive(Clone, Copy, Debug, PartialEq, Eq, Structural)]
pub enum Method {
    Get,
    Post,
    Put,
    Delete,
}

/// A fully assembled request, ready to be performed by the caller's
/// surroundings: the body is already serialized, and the bearer header value
/// is already formatted.
#[derive(Clone, Debug, PartialEq, Eq)]
pub struct HttpRequest {
    pub method: Method,
    pub url: String,
    pub body: Option<String>,
    pub bearer: Option<String>,
}

/// The abstract content of an [`HttpRequest`].
pub struct ReqModel {
    pub method: Method,
    pub url: Seq<char>,
    pub body: Option<Seq<char>>,
    pub bearer: Option<Seq<char>>,
}

impl View for HttpRequest {
    type V = ReqModel;

    open spec fn view(&self) -> ReqModel {
        ReqModel {
            method: self.method,
            url: self.url@,
            body: self.body.deep_view(),
            bearer: self.bearer.deep_view(),
        }
    }
}

/// Whether an HTTP status reports success.
pub open spec fn spec_is_success(status: u16) -> bool {
    200 <= status < 300
}

/// What interpreting a token-endpoint reply yields: on a success status the
/// credential decoded from the body (or a `Json` error when the body decodes
/// into none), on any other status the decoded error union.
pub open spec fn token_reply_spec(status: u16, body: Seq<char>, r: Result<
    AccessToken,
    Error,
>) -> bool {
    if spec_is_success(status) {
        match json_doc(body) {
            Some(j) => match token_of(j) {
                Some(tm) => r matches Ok(t) && t@ == tm,
                None => r matches Err(e) && e is Json,
            },
            None => r matches Err(e) && e is Json,
        }
    } else {
        r matches Err(e) && error_reply_spec(body, e)
    }
}

/// The stateless dispatcher the resource services share.
#[derive(Clone, Copy, Debug, PartialEq, Eq, Structural)]
pub struct Api {}

impl Api {
    pub fn new() -> (r: Self)
        ensures
            r == (Api {  }),
    {
        Api {  }
    }

    /// Assemble a request: the bearer header value is formatted from the
    /// credential's access token exactly as stored, with no freshness check.
    pub fn prepare(
        method: Method,
        url: String,
        body: Option<String>,
        access_token: Option<&AccessToken>,
    ) -> (r: HttpRequest)
        ensures
            r@ == (ReqModel {
                method: method,
                url: url@,
                body: body.deep_view(),
                bearer: match access_token {
                    Some(t) => Some("Bearer "@ + t.access_token@),
                    None => None,
                },
            }),
    {
        let bearer = match access_token {
            Some(t) => Some(t.bearer()),
            None => None,
        };
        HttpRequest { method, url, body, bearer }
    }

    fn is_success(status: u16) -> (r: bool)
        ensures
            r == spec_is_success(status),
    {
        200 <= status && status < 300
    }

    /// The token-endpoint exchange for a prepared payload.
    pub fn token(&self, payload: TokenPayload) -> (r: TokenRequest)
        ensures
            r.method == Method::Post,
            r.url@ == "https://api.sumup.com/token"@,
            r.payload == payload,
    {
        TokenRequest { method: Method::Post, url: "https://api.sumup.com/token".to_owned(), payload }
    }

    /// Interpret the reply of a token-endpoint exchange.
    pub fn token_response(status: u16, body: &str) -> (r: Result<AccessToken, Error>)
        ensures
            token_reply_spec(status, body@, r),
    {
        if Self::is_success(status) {
            match parse_json(body) {
                Ok(v) => match decode_access_token(&v) {
                    Some(t) => Ok(t),
                    None => Err(Error::Json("the reply carries no credential".to_owned())),
                },
                Err(msg) => Err(Error::Json(msg)),
            }
        } else {
            Err(decode_error_body(body))
        }
    }

    /// Interpret a reply whose success body the caller decodes: on a success
    /// status the body is handed back verbatim, on any other status the error
    /// union is decoded.
    pub fn finish(status: u16, body: String) -> (r: Result<String, Error>)
        ensures
            match r {
                Ok(b) => spec_is_success(status) && b@ == body@,
                Err(e) => !spec_is_success(status) && error_reply_spec(body@, e),
            },
    {
        if Self::is_success(status) {
            Ok(body)
        } else {
            Err(decode_error_body(body.as_str()))
        }
    }

    /// Interpret a reply of an operation that returns nothing: a success
    /// status merely confirms success, any other status carries the error
    /// union.
    pub fn finish_empty(status: u16, body: &str) -> (r: Result<(), Error>)
        ensures
            match r {
                Ok(_) => spec_is_success(status),
                Err(e) => !spec_is_success(status) && error_reply_spec(body@, e),
            },
    {
        if Self::is_success(status) {
            Ok(())
        } else {
            Err(decode_error_body(body))
        }
    }

    /// The merchant-account request.
    pub fn account_get(&self, access_token: &AccessToken) -> (r: HttpRequest)
        ensures
            r@ == (ReqModel {
                method: Method::Get,
                url: "https://api.sumup.com/v0.1/me"@,
                body: None,
                bearer: Some("Bearer "@ + access_token.access_token@),
            }),
    {
        Self::prepare(
            Method::Get,
            "https://api.sumup.com/v0.1/me".to_owned(),
            None,
            Some(access_token),
        )
    }

    /// The checkout-listing request for one checkout reference.
    pub fn checkout_list(&self, checkout_reference: &str, access_token: &AccessToken) -> (r:
        HttpRequest)
        ensures
            r@ == (ReqModel {
                method: Method::Get,
                url: "https://api.sumup.com/v0.1/checkouts?checkout_reference="@
                    + checkout_reference@,
                body: None,
                bearer: Some("Bearer "@ + access_token.access_token@),
            }),
    {
        Self::prepare(
            Method::Get,
            "https://api.sumup.com/v0.1/checkouts?checkout_reference=".to_owned().concat(
                checkout_reference,
            ),
            None,
            Some(access_token),
        )
    }

    /// The transaction lookup by identifier.
    pub fn transactions_get(&self, id: &str, access_token: &AccessToken) -> (r: HttpRequest)
        ensures
            r@ == (ReqModel {
                method: Method::Get,
                url: "https://api.sumup.com/v0.1/me/transactions?id="@ + id@,
                body: None,
                bearer: Some("Bearer "@ + access_token.access_token@),
            }),
    {
        Self::prepare(
            Method::Get,
            "https://api.sumup.com/v0.1/me/transactions?id=".to_owned().concat(id),
            None,
            Some(access_token),
        )
    }

    /// The transaction lookup by internal identifier.
    pub fn transactions_get_by_internal_id(&self, internal_id: &str, access_token: &AccessToken) -> (r:
        HttpRequest)
        ensures
            r@ == (ReqModel {
                method: Method::Get,
                url: "https://api.sumup.com/v0.1/me/transactions?internal_id="@ + internal_id@,
                body: None,
                bearer: Some("Bearer "@ + access_token.access_token@),
            }),
    {
        Self::prepare(
            Method::Get,
            "https://api.sumup.com/v0.1/me/transactions?internal_id=".to_owned().concat(
                internal_id,
            ),
            None,
            Some(access_token),
        )
    }

    /// The transaction lookup by transaction code.
    pub fn transactions_get_by_code(&self, transaction_code: &str, access_token: &AccessToken) -> (r:
        HttpRequest)
        ensures
            r@ == (ReqModel {
                method: Method::Get,
                url: "https://api.sumup.com/v0.1/me/transactions?transaction_code="@
                    + transaction_code@,
                body: None,
                bearer: Some("Bearer "@ + access_token.access_token@),
            }),
    {
        Self::prepare(
            Method::Get,
            "https://api.sumup.com/v0.1/me/transactions?transaction_code=".to_owned().concat(
                transaction_code,
            ),
            None,
            Some(access_token),
        )
    }

    /// The payout listing.  Its filter belongs to the payouts collaborator,
    /// which hands the query string over already encoded.
    pub fn payouts_list(&self, filter_query: &str, access_token: &AccessToken) -> (r: HttpRequest)
        ensures
            r@ == (ReqModel {
                method: Method::Get,
                url: "https://api.sumup.com/v0.1/me/financials/payouts?"@ + filter_query@,
                body: None,
                bearer: Some("Bearer "@ + access_token.access_token@),
            }),
    {
        Self::prepare(
            Method::Get,
            "https://api.sumup.com/v0.1/me/financials/payouts?".to_owned().concat(filter_query),
            None,
            Some(access_token),
        )
    }

    /// The transaction listing.  As with the payout listing, the filter's
    /// encoding is handed over by the payouts collaborator.
    pub fn transactions_list(&self, filter_query: &str, access_token: &AccessToken) -> (r:
        HttpRequest)
        ensures
            r@ == (ReqModel {
                method: Method::Get,
                url: "https://api.sumup.com/v0.1/me/financials/transactions?"@ + filter_query@,
                body: None,
                bearer: Some("Bearer "@ + access_token.access_token@),
            }),
    {
        Self::prepare(
            Method::Get,
            "https://api.sumup.com/v0.1/me/financials/transactions?".to_owned().concat(
                filter_query,
            ),
            None,
            Some(access_token),
        )
    }

    /// The transaction-history listing under a filter.  The service answers
    /// it on the payouts listing path.
    pub fn transactions_history(&self, filter: &Filter, access_token: &AccessToken) -> (r:
        HttpRequest)
        ensures
            r@ == (ReqModel {
                method: Method::Get,
                url: "https://api.sumup.com/v0.1/me/financials/payouts?"@ + query_of(*filter),
                body: None,
                bearer: Some("Bearer "@ + access_token.access_token@),
            }),
    {
        let query = filter.to_string();
        Self::prepare(
            Method::Get,
            "https://api.sumup.com/v0.1/me/financials/payouts?".to_owned().concat(query.as_str()),
            None,
            Some(access_token),
        )
    }

    /// The refund request.  The source service takes it as a GET carrying a
    /// JSON body; that exact shape is preserved.
    pub fn transactions_refund(&self, id: u32, body: String, access_token: &AccessToken) -> (r:
        HttpRequest)
        ensures
            r@ == (ReqModel {
                method: Method::Get,
                url: "https://api.sumup.com/v0.1/me/refund/"@ + dec_digits(id as nat),
                body: Some(body@),
                bearer: Some("Bearer "@ + access_token.access_token@),
            }),
    {
        let url = "https://api.sumup.com/v0.1/me/refund/".to_owned().concat(
            u32_string(id).as_str(),
        );
        Self::prepare(Method::Get, url, Some(body), Some(access_token))
    }

    /// The receipt request for a transaction at a merchant.
    pub fn transactions_get_receipt(
        &self,
        id: u32,
        merchant_id: u32,
        access_token: &AccessToken,
    ) -> (r: HttpRequest)
        ensures
            r@ == (ReqModel {
                method: Method::Get,
                url: "https://api.sumup.com/receipts/"@ + dec_digits(id as nat) + "?mid="@
                    + dec_digits(merchant_id as nat),
                body: None,
                bearer: Some("Bearer "@ + access_token.access_token@),
            }),
    {
        let url = "https://api.sumup.com/receipts/".to_owned().concat(
            u32_string(id).as_str(),
        ).concat("?mid=").concat(u32_string(merchant_id).as_str());
        Self::prepare(Method::Get, url, None, Some(access_token))
    }
}

} // verus!
