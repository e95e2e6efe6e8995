//! Conditional order endpoints. Every one of them is scoped to an account.
use vstd::prelude::*;

use super::{count_text, entry, no_query, push_opt, request, str_text, ApiRequest, HttpMethod, RequestBody};
use crate::domain::models::{ConditionalOrderCreateRequest, ConditionalOrderModifyRequest, OrderListStatus};
use crate::text::{concat2, concat3, owned};

verus! {

/// Creation of a conditional order (`POST /api/v1/conditional-orders`) with `request` as body.
pub fn create_conditional_order(request: ConditionalOrderCreateRequest) -> (r: ApiRequest)
    ensures
        r.is(HttpMethod::Post, "/api/v1/conditional-orders"@, Seq::empty(), true),
        r.body == RequestBody::CreateConditionalOrder(request),
{
    ApiRequest {
        method: HttpMethod::Post,
        path: owned("/api/v1/conditional-orders"),
        query: no_query(),
        body: RequestBody::CreateConditionalOrder(request),
        needs_account: true,
    }
}

/// List of conditional orders (`GET /api/v1/conditional-orders`).
pub fn get_conditional_orders(
    status: OrderListStatus,
    symbol: Option<&str>,
    cursor: Option<&str>,
    limit: Option<u32>,
) -> (r: ApiRequest)
    ensures
        r.is(
            HttpMethod::Get,
            "/api/v1/conditional-orders"@,
            seq![("status"@, status.wire_name())]
                + super::optional_entry("symbol"@, super::opt_str(symbol))
                + super::optional_entry("cursor"@, super::opt_str(cursor))
                + super::optional_entry("limit"@, super::opt_decimal(limit)),
            true,
        ),
        r.body is Empty,
{
    let mut query = entry("status", owned(status.as_str()));
    push_opt(&mut query, "symbol", str_text(symbol));
    push_opt(&mut query, "cursor", str_text(cursor));
    push_opt(&mut query, "limit", count_text(limit));
    request(HttpMethod::Get, owned("/api/v1/conditional-orders"), query, true)
}

/// One conditional order (`GET /api/v1/conditional-orders/{conditionalOrderId}`).
pub fn get_conditional_order(conditional_order_id: &str) -> (r: ApiRequest)
    ensures
        r.is(HttpMethod::Get, "/api/v1/conditional-orders/"@ + conditional_order_id@, Seq::empty(), true),
        r.body is Empty,
{
    request(HttpMethod::Get, concat2("/api/v1/conditional-orders/", conditional_order_id), no_query(), true)
}

/// Cancellation of a conditional order (`DELETE /api/v1/conditional-orders/{conditionalOrderId}`);
/// the server answers 204 No Content.
pub fn cancel_conditional_order(conditional_order_id: &str) -> (r: ApiRequest)
    ensures
        r.is(HttpMethod::Delete, "/api/v1/conditional-orders/"@ + conditional_order_id@, Seq::empty(), true),
        r.body is Empty,
{
    request(HttpMethod::Delete, concat2("/api/v1/conditional-orders/", conditional_order_id), no_query(), true)
}

/// Modification of a conditional order
/// (`POST /api/v1/conditional-orders/{conditionalOrderId}/modify`) with `request` as body.
pub fn modify_conditional_order(conditional_order_id: &str, request: ConditionalOrderModifyRequest) -> (r: ApiRequest)
    ensures
        r.is(
            HttpMethod::Post,
            "/api/v1/conditional-orders/"@ + conditional_order_id@ + "/modify"@,
            Seq::empty(),
            true,
        ),
        r.body == RequestBody::ModifyConditionalOrder(request),
{
    ApiRequest {
        method: HttpMethod::Post,
        path: concat3("/api/v1/conditional-orders/", conditional_order_id, "/modify"),
        query: no_query(),
        body: RequestBody::ModifyConditionalOrder(request),
        needs_account: true,
    }
}

} // verus!
