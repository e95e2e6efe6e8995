//! The requests that the client sends, and the state that it keeps between them.
//!
//! Each endpoint of the API is a function of its module (`market_data`,
//! `trading`, `account`, `conditional_order`) that builds the [`ApiRequest`] to
//! send: method, path, query, request body and whether the request is scoped to an
//! account (the `AccountSeq` header).
use vstd::prelude::*;

use crate::domain::models::{
    ConditionalOrderCreateRequest, ConditionalOrderModifyRequest, OrderCreateRequest, OrderModifyRequest,
};

pub mod account;
pub mod conditional_order;
pub mod config;
pub mod market_data;
pub mod token;
pub mod trading;

verus! {

/// HTTP method of a request.
#[derive(Debug, Clone, Copy, PartialEq, Eq, Structural)]
pub enum HttpMethod {
    Get,
    Post,
    Delete,
}

/// Body of a request; all but `Form` are sent as JSON.
#[derive(Debug, Clone)]
pub enum RequestBody {
    Empty,
    CreateOrder(OrderCreateRequest),
    ModifyOrder(OrderModifyRequest),
    CreateConditionalOrder(ConditionalOrderCreateRequest),
    ModifyConditionalOrder(ConditionalOrderModifyRequest),
    /// Form fields, sent URL-encoded (the OAuth2 token request).
    Form(Vec<(&'static str, String)>),
}

/// One call of the API.
#[derive(Debug, Clone)]
pub struct ApiRequest {
    pub method: HttpMethod,
    /// Path below the base URL, such as `/api/v1/orders`.
    pub path: String,
    /// Query parameters, in order.
    pub query: Vec<(&'static str, String)>,
    pub body: RequestBody,
    /// Whether the request is scoped to an account and carries the `AccountSeq` header.
    pub needs_account: bool,
}

/// A request without body.
pub fn request(
    method: HttpMethod,
    path: String,
    query: Vec<(&'static str, String)>,
    needs_account: bool,
) -> (r: ApiRequest)
    ensures
        r.method == method,
        r.path == path,
        r.query == query,
        r.body is Empty,
        r.needs_account == needs_account,
{
    ApiRequest { method, path, query, body: RequestBody::Empty, needs_account }
}

/// The views of query parameters.
pub open spec fn query_view(query: Seq<(&'static str, String)>) -> Seq<(Seq<char>, Seq<char>)> {
    query.map_values(|p: (&'static str, String)| (p.0@, p.1@))
}

/// The query parameter `key=value` where `value` is present, else nothing.
pub open spec fn optional_entry(key: Seq<char>, value: Option<Seq<char>>) -> Seq<(Seq<char>, Seq<char>)> {
    match value {
        Some(v) => seq![(key, v)],
        None => Seq::empty(),
    }
}

/// An optional count rendered in decimal.
pub open spec fn opt_decimal(value: Option<u32>) -> Option<Seq<char>> {
    match value {
        Some(v) => Some(crate::text::decimal(v as nat)),
        None => None,
    }
}

/// An optional flag rendered as `true` or `false`.
pub open spec fn opt_bool(value: Option<bool>) -> Option<Seq<char>> {
    match value {
        Some(v) => Some(crate::text::bool_text(v)),
        None => None,
    }
}

/// The view of an optional string slice.
pub open spec fn opt_str(value: Option<&str>) -> Option<Seq<char>> {
    match value {
        Some(v) => Some(v@),
        None => None,
    }
}

impl ApiRequest {
    /// This request has the given method, path, query and account scope.
    pub open spec fn is(
        self,
        method: HttpMethod,
        path: Seq<char>,
        query: Seq<(Seq<char>, Seq<char>)>,
        needs_account: bool,
    ) -> bool {
        &&& self.method == method
        &&& self.path@ == path
        &&& query_view(self.query@) == query
        &&& self.needs_account == needs_account
    }
}

/// Appends the query parameter `key=value` where `value` is present.
pub fn push_opt(query: &mut Vec<(&'static str, String)>, key: &'static str, value: Option<String>)
    ensures
        query_view(final(query)@) == query_view(old(query)@) + optional_entry(key@, crate::text::opt_text(value)),
{
    match value {
        Some(v) => {
            query.push((key, v));
            assert(query_view(query@) =~= query_view(old(query)@) + optional_entry(key@, crate::text::opt_text(value)));
        },
        None => {
            assert(query_view(query@) =~= query_view(old(query)@) + optional_entry(key@, crate::text::opt_text(value)));
        },
    }
}

/// An optional count rendered in decimal.
pub fn count_text(value: Option<u32>) -> (r: Option<String>)
    ensures
        crate::text::opt_text(r) == opt_decimal(value),
{
    match value {
        Some(v) => Some(crate::text::u64_to_text(v as u64)),
        None => None,
    }
}

/// An optional flag rendered as `true` or `false`.
pub fn flag_text(value: Option<bool>) -> (r: Option<String>)
    ensures
        crate::text::opt_text(r) == opt_bool(value),
{
    match value {
        Some(v) => Some(crate::text::bool_to_text(v)),
        None => None,
    }
}

/// An optional string slice, owned.
pub fn str_text(value: Option<&str>) -> (r: Option<String>)
    ensures
        crate::text::opt_text(r) == opt_str(value),
{
    match value {
        Some(v) => Some(crate::text::owned(v)),
        None => None,
    }
}

/// One query parameter.
pub fn entry(key: &'static str, value: String) -> (r: Vec<(&'static str, String)>)
    ensures
        query_view(r@) == seq![(key@, value@)],
{
    let mut q: Vec<(&'static str, String)> = Vec::new();
    q.push((key, value));
    assert(query_view(q@) =~= seq![(key@, value@)]);
    q
}

/// Two query parameters.
pub fn entries2(k1: &'static str, v1: String, k2: &'static str, v2: String) -> (r: Vec<(&'static str, String)>)
    ensures
        query_view(r@) == seq![(k1@, v1@), (k2@, v2@)],
{
    let mut q: Vec<(&'static str, String)> = Vec::new();
    q.push((k1, v1));
    q.push((k2, v2));
    assert(query_view(q@) =~= seq![(k1@, v1@), (k2@, v2@)]);
    q
}

/// Three query parameters.
pub fn entries3(
    k1: &'static str,
    v1: String,
    k2: &'static str,
    v2: String,
    k3: &'static str,
    v3: String,
) -> (r: Vec<(&'static str, String)>)
    ensures
        query_view(r@) == seq![(k1@, v1@), (k2@, v2@), (k3@, v3@)],
{
    let mut q: Vec<(&'static str, String)> = Vec::new();
    q.push((k1, v1));
    q.push((k2, v2));
    q.push((k3, v3));
    assert(query_view(q@) =~= seq![(k1@, v1@), (k2@, v2@), (k3@, v3@)]);
    q
}

/// No query parameters.
pub fn no_query() -> (r: Vec<(&'static str, String)>)
    ensures
        query_view(r@) == Seq::<(Seq<char>, Seq<char>)>::empty(),
{
    let q: Vec<(&'static str, String)> = Vec::new();
    assert(query_view(q@) =~= Seq::<(Seq<char>, Seq<char>)>::empty());
    q
}

/// A present count is sent as one parameter under its key whose value is made of
/// digits and reads back as exactly that count; an absent one sends nothing.
pub proof fn lemma_count_sent_as_decimal(key: Seq<char>, value: Option<u32>)
    ensures
        value is None ==> optional_entry(key, opt_decimal(value)) == Seq::<(Seq<char>, Seq<char>)>::empty(),
        value matches Some(v) ==> {
            let entries = optional_entry(key, opt_decimal(value));
            &&& entries.len() == 1
            &&& entries[0].0 == key
            &&& crate::text::digits_value(entries[0].1) == v
            &&& forall|i: int| 0 <= i < entries[0].1.len() ==> crate::text::is_digit(#[trigger] entries[0].1[i])
        },
{
    if let Some(v) = value {
        crate::text::lemma_decimal_reads_back(v as nat);
    }
}

/// A present string parameter is sent verbatim under its key, whatever its
/// length or content; an absent one sends nothing.
pub proof fn lemma_text_sent_verbatim(key: Seq<char>, value: Option<&str>)
    ensures
        value is None ==> optional_entry(key, opt_str(value)) == Seq::<(Seq<char>, Seq<char>)>::empty(),
        value matches Some(v) ==> optional_entry(key, opt_str(value)) == seq![(key, v@)],
{
}

} // verus!
