//! The transaction facade and the history filter with its query-string
//! encoding.

use vstd::prelude::*;
use vstd::string::StringExecFns;

use crate::api::{Api, HttpRequest, Method, ReqModel};
use crate::entity::{AccessToken, PaymentType, Status, Type};
use crate::text::{dec_digits, u32_string};

verus! {

/// The filter of a transaction-history listing.  The dates and the ordering
/// are always encoded; the remaining members only when supplied, the
/// repeatable ones once per element in order.
#[derive(Clone, Debug, PartialEq, Eq)]
pub struct Filter {
    pub start_date: String,
    pub end_date: String,
    pub order: Option<String>,
    pub limit: Option<u32>,
    pub user_id: Option<u32>,
    pub users: Vec<u32>,
    pub statuses: Vec<Status>,
    pub payment_types: Vec<PaymentType>,
    pub types: Vec<Type>,
    pub changes_since: Option<String>,
    pub newest_time: Option<String>,
    pub newest_ref: Option<String>,
    pub oldest_time: Option<String>,
    pub oldest_ref: Option<String>,
}

impl Default for Filter {
    /// A filter with empty dates and every optional member absent.
    fn default() -> (r: Self)
        ensures
            r.start_date@ == Seq::<char>::empty(),
            r.end_date@ == Seq::<char>::empty(),
            r.order is None,
            r.limit is None,
            r.user_id is None,
            r.users@ == Seq::<u32>::empty(),
            r.statuses@ == Seq::<Status>::empty(),
            r.payment_types@ == Seq::<PaymentType>::empty(),
            r.types@ == Seq::<Type>::empty(),
            r.changes_since is None,
            r.newest_time is None,
            r.newest_ref is None,
            r.oldest_time is None,
            r.oldest_ref is None,
    {
        Filter {
            start_date: String::new(),
            end_date: String::new(),
            order: None,
            limit: None,
            user_id: None,
            users: Vec::new(),
            statuses: Vec::new(),
            payment_types: Vec::new(),
            types: Vec::new(),
            changes_since: None,
            newest_time: None,
            newest_ref: None,
            oldest_time: None,
            oldest_ref: None,
        }
    }
}

/// An optional scalar segment: its prefix and value when supplied, nothing
/// otherwise.
pub open spec fn opt_seg(prefix: Seq<char>, o: Option<Seq<char>>) -> Seq<char> {
    match o {
        Some(s) => prefix + s,
        None => Seq::empty(),
    }
}

/// The repeated segments of a numeric member, one per element in order.
pub open spec fn num_segs(prefix: Seq<char>, xs: Seq<u32>) -> Seq<char>
    decreases xs.len(),
{
    if xs.len() == 0 {
        Seq::empty()
    } else {
        num_segs(prefix, xs.drop_last()) + prefix + dec_digits(xs.last() as nat)
    }
}

/// The repeated segments of a string member, one per element in order.
pub open spec fn str_segs(prefix: Seq<char>, xs: Seq<Seq<char>>) -> Seq<char>
    decreases xs.len(),
{
    if xs.len() == 0 {
        Seq::empty()
    } else {
        str_segs(prefix, xs.drop_last()) + prefix + xs.last()
    }
}

/// The mandatory head of the query: dates, ordering (ascending when not
/// supplied) and limit (ten when not supplied).
pub open spec fn query_head(f: Filter) -> Seq<char> {
    "start_date="@ + f.start_date@ + "&end_date="@ + f.end_date@ + "&order="@ + (match f.order {
        Some(o) => o@,
        None => "asc"@,
    }) + "&limit="@ + dec_digits(
        match f.limit {
            Some(l) => l as nat,
            None => 10,
        },
    ) + opt_seg(
        "&user_id="@,
        match f.user_id {
            Some(u) => Some(dec_digits(u as nat)),
            None => None,
        },
    )
}

/// The query up to and including the repeatable members.
pub open spec fn query_lists(f: Filter) -> Seq<char> {
    query_head(f) + num_segs("&user="@, f.users@) + str_segs("&statuse="@, f.statuses.deep_view())
        + str_segs("&payment_type="@, f.payment_types.deep_view()) + str_segs(
        "&type="@,
        f.types.deep_view(),
    )
}

/// The whole query string of a filter, closed by the fixed format marker.
pub open spec fn query_of(f: Filter) -> Seq<char> {
    query_lists(f) + opt_seg("&changes_since="@, f.changes_since.deep_view()) + opt_seg(
        "&newest_time="@,
        f.newest_time.deep_view(),
    ) + opt_seg("&newest_ref="@, f.newest_ref.deep_view()) + opt_seg(
        "&oldest_time="@,
        f.oldest_time.deep_view(),
    ) + opt_seg("&oldest_ref="@, f.oldest_ref.deep_view()) + "&format=json"@
}

/// Append an optional scalar segment.
fn append_opt(q: &mut String, prefix: &'static str, member: &Option<String>)
    ensures
        final(q)@ == old(q)@ + opt_seg(prefix@, member.deep_view()),
{
    if let Some(s) = member {
        q.append(prefix);
        q.append(s.as_str());
    }
}

/// Append the repeated segments of a numeric member.
fn append_nums(q: &mut String, prefix: &'static str, xs: &Vec<u32>)
    ensures
        final(q)@ == old(q)@ + num_segs(prefix@, xs@),
{
    let ghost start = q@;
    let mut i: usize = 0;
    while i < xs.len()
        invariant
            i <= xs@.len(),
            q@ == start + num_segs(prefix@, xs@.take(i as int)),
        decreases xs@.len() - i,
    {
        q.append(prefix);
        let digits = u32_string(xs[i]);
        q.append(digits.as_str());
        proof {
            assert(xs@.take(i + 1 as int).drop_last() =~= xs@.take(i as int));
            assert(xs@.take(i + 1 as int).last() == xs@[i as int]);
        }
        i += 1;
    }
    proof {
        assert(xs@.take(xs@.len() as int) =~= xs@);
    }
}

impl Filter {
    /// Append the repeated status segments.
    fn append_statuses(&self, q: &mut String)
        ensures
            final(q)@ == old(q)@ + str_segs("&statuse="@, self.statuses.deep_view()),
    {
        let ghost start = q@;
        let mut i: usize = 0;
        while i < self.statuses.len()
            invariant
                i <= self.statuses@.len(),
                q@ == start + str_segs("&statuse="@, self.statuses.deep_view().take(i as int)),
            decreases self.statuses@.len() - i,
        {
            q.append("&statuse=");
            q.append(self.statuses[i].0.as_str());
            proof {
                assert(self.statuses.deep_view().take(i + 1 as int).drop_last()
                    =~= self.statuses.deep_view().take(i as int));
                assert(self.statuses.deep_view().take(i + 1 as int).last()
                    == self.statuses.deep_view()[i as int]);
            }
            i += 1;
        }
        proof {
            assert(self.statuses.deep_view().take(self.statuses.deep_view().len() as int)
                =~= self.statuses.deep_view());
        }
    }

    /// Append the repeated payment-type segments.
    fn append_payment_types(&self, q: &mut String)
        ensures
            final(q)@ == old(q)@ + str_segs("&payment_type="@, self.payment_types.deep_view()),
    {
        let ghost start = q@;
        let mut i: usize = 0;
        while i < self.payment_types.len()
            invariant
                i <= self.payment_types@.len(),
                q@ == start + str_segs(
                    "&payment_type="@,
                    self.payment_types.deep_view().take(i as int),
                ),
            decreases self.payment_types@.len() - i,
        {
            q.append("&payment_type=");
            q.append(self.payment_types[i].0.as_str());
            proof {
                assert(self.payment_types.deep_view().take(i + 1 as int).drop_last()
                    =~= self.payment_types.deep_view().take(i as int));
                assert(self.payment_types.deep_view().take(i + 1 as int).last()
                    == self.payment_types.deep_view()[i as int]);
            }
            i += 1;
        }
        proof {
            assert(self.payment_types.deep_view().take(self.payment_types.deep_view().len() as int)
                =~= self.payment_types.deep_view());
        }
    }

    /// Append the repeated type segments.
    fn append_types(&self, q: &mut String)
        ensures
            final(q)@ == old(q)@ + str_segs("&type="@, self.types.deep_view()),
    {
        let ghost start = q@;
        let mut i: usize = 0;
        while i < self.types.len()
            invariant
                i <= self.types@.len(),
                q@ == start + str_segs("&type="@, self.types.deep_view().take(i as int)),
            decreases self.types@.len() - i,
        {
            q.append("&type=");
            q.append(self.types[i].0.as_str());
            proof {
                assert(self.types.deep_view().take(i + 1 as int).drop_last()
                    =~= self.types.deep_view().take(i as int));
                assert(self.types.deep_view().take(i + 1 as int).last()
                    == self.types.deep_view()[i as int]);
            }
            i += 1;
        }
        proof {
            assert(self.types.deep_view().take(self.types.deep_view().len() as int)
                =~= self.types.deep_view());
        }
    }

    /// The mandatory head of the query.
    fn head_string(&self) -> (r: String)
        ensures
            r@ == query_head(*self),
    {
        let mut q = "start_date=".to_owned();
        q.append(self.start_date.as_str());
        q.append("&end_date=");
        q.append(self.end_date.as_str());
        q.append("&order=");
        q.append(
            match &self.order {
                Some(o) => o.as_str(),
                None => "asc",
            },
        );
        q.append("&limit=");
        let limit: u32 = match self.limit {
            Some(l) => l,
            None => 10,
        };
        let limit_digits = u32_string(limit);
        q.append(limit_digits.as_str());
        if let Some(user_id) = self.user_id {
            q.append("&user_id=");
            let user_digits = u32_string(user_id);
            q.append(user_digits.as_str());
        }
        q
    }

    /// Encode the filter as the query string the listing endpoints take.
    pub fn to_string(&self) -> (r: String)
        ensures
            r@ == query_of(*self),
    {
        let mut q = self.head_string();
        append_nums(&mut q, "&user=", &self.users);
        self.append_statuses(&mut q);
        self.append_payment_types(&mut q);
        self.append_types(&mut q);
        assert(q@ == query_lists(*self));
        append_opt(&mut q, "&changes_since=", &self.changes_since);
        append_opt(&mut q, "&newest_time=", &self.newest_time);
        append_opt(&mut q, "&newest_ref=", &self.newest_ref);
        append_opt(&mut q, "&oldest_time=", &self.oldest_time);
        append_opt(&mut q, "&oldest_ref=", &self.oldest_ref);
        q.append("&format=json");
        q
    }
}

/// The transaction operations, bound to the dispatcher and the session's
/// credential.
#[derive(Clone, Debug)]
pub struct Transactions<'a> {
    pub api: &'a Api,
    pub access_token: &'a AccessToken,
}

impl<'a> Transactions<'a> {
    pub fn new(api: &'a Api, access_token: &'a AccessToken) -> (r: Self)
        ensures
            r.api == api,
            r.access_token == access_token,
    {
        Transactions { api, access_token }
    }

    /// The lookup of one transaction by identifier.
    pub fn find_by_id(&self, id: &str) -> (r: HttpRequest)
        ensures
            r@ == (ReqModel {
                method: Method::Get,
                url: "https://api.sumup.com/v0.1/me/transactions?id="@ + id@,
                body: None,
                bearer: Some("Bearer "@ + self.access_token.access_token@),
            }),
    {
        self.api.transactions_get(id, self.access_token)
    }

    /// The lookup of one transaction by internal identifier.
    pub fn find_by_internal_id(&self, internal_id: &str) -> (r: HttpRequest)
        ensures
            r@ == (ReqModel {
                method: Method::Get,
                url: "https://api.sumup.com/v0.1/me/transactions?internal_id="@ + internal_id@,
                body: None,
                bearer: Some("Bearer "@ + self.access_token.access_token@),
            }),
    {
        self.api.transactions_get_by_internal_id(internal_id, self.access_token)
    }

    /// The lookup of one transaction by transaction code.
    pub fn find_by_code(&self, code: &str) -> (r: HttpRequest)
        ensures
            r@ == (ReqModel {
                method: Method::Get,
                url: "https://api.sumup.com/v0.1/me/transactions?transaction_code="@ + code@,
                body: None,
                bearer: Some("Bearer "@ + self.access_token.access_token@),
            }),
    {
        self.api.transactions_get_by_code(code, self.access_token)
    }

    /// The history listing under a filter.
    pub fn history(&self, filter: &Filter) -> (r: HttpRequest)
        ensures
            r@ == (ReqModel {
                method: Method::Get,
                url: "https://api.sumup.com/v0.1/me/financials/payouts?"@ + query_of(*filter),
                body: None,
                bearer: Some("Bearer "@ + self.access_token.access_token@),
            }),
    {
        self.api.transactions_history(filter, self.access_token)
    }

    /// A refund of the whole transaction: the refund request with an empty
    /// JSON object as its payload.
    pub fn full_refund(&self, id: u32) -> (r: HttpRequest)
        ensures
            r@ == (ReqModel {
                method: Method::Get,
                url: "https://api.sumup.com/v0.1/me/refund/"@ + dec_digits(id as nat),
                body: Some("{}"@),
                bearer: Some("Bearer "@ + self.access_token.access_token@),
            }),
    {
        self.api.transactions_refund(id, "{}".to_owned(), self.access_token)
    }

    /// The receipt of a transaction at a merchant.
    pub fn receipt(&self, id: u32, merchant_id: u32) -> (r: HttpRequest)
        ensures
            r@ == (ReqModel {
                method: Method::Get,
                url: "https://api.sumup.com/receipts/"@ + dec_digits(id as nat) + "?mid="@
                    + dec_digits(merchant_id as nat),
                body: None,
                bearer: Some("Bearer "@ + self.access_token.access_token@),
            }),
    {
        self.api.transactions_get_receipt(id, merchant_id, self.access_token)
    }
}

} // verus!
