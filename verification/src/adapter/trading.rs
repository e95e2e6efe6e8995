//! Order and buying-power endpoints. Every one of them is scoped to an account.
use vstd::prelude::*;

use super::{count_text, entry, no_query, push_opt, request, str_text, ApiRequest, HttpMethod, RequestBody};
use crate::domain::models::{Currency, OrderCreateRequest, OrderListStatus, OrderModifyRequest};
use crate::text::{concat2, concat3, owned};

verus! {

/// List of orders (`GET /api/v1/orders`).
pub fn get_orders(
    status: OrderListStatus,
    symbol: Option<&str>,
    from: Option<&str>,
    to: Option<&str>,
    cursor: Option<&str>,
    limit: Option<u32>,
) -> (r: ApiRequest)
    ensures
        r.is(
            HttpMethod::Get,
            "/api/v1/orders"@,
            seq![("status"@, status.wire_name())]
                + super::optional_entry("symbol"@, super::opt_str(symbol))
                + super::optional_entry("from"@, super::opt_str(from))
                + super::optional_entry("to"@, super::opt_str(to))
                + super::optional_entry("cursor"@, super::opt_str(cursor))
                + super::optional_entry("limit"@, super::opt_decimal(limit)),
            true,
        ),
        r.body is Empty,
{
    let mut query = entry("status", owned(status.as_str()));
    push_opt(&mut query, "symbol", str_text(symbol));
    push_opt(&mut query, "from", str_text(from));
    push_opt(&mut query, "to", str_text(to));
    push_opt(&mut query, "cursor", str_text(cursor));
    push_opt(&mut query, "limit", count_text(limit));
    request(HttpMethod::Get, owned("/api/v1/orders"), query, true)
}

/// Creation of an order (`POST /api/v1/orders`) with `request` as body.
pub fn create_order(request: OrderCreateRequest) -> (r: ApiRequest)
    ensures
        r.is(HttpMethod::Post, "/api/v1/orders"@, Seq::empty(), true),
        r.body == RequestBody::CreateOrder(request),
{
    ApiRequest {
        method: HttpMethod::Post,
        path: owned("/api/v1/orders"),
        query: no_query(),
        body: RequestBody::CreateOrder(request),
        needs_account: true,
    }
}

/// One order (`GET /api/v1/orders/{orderId}`).
pub fn get_order(order_id: &str) -> (r: ApiRequest)
    ensures
        r.is(HttpMethod::Get, "/api/v1/orders/"@ + order_id@, Seq::empty(), true),
        r.body is Empty,
{
    request(HttpMethod::Get, concat2("/api/v1/orders/", order_id), no_query(), true)
}

/// Modification of an order (`POST /api/v1/orders/{orderId}/modify`) with `request` as body.
pub fn modify_order(order_id: &str, request: OrderModifyRequest) -> (r: ApiRequest)
    ensures
        r.is(HttpMethod::Post, "/api/v1/orders/"@ + order_id@ + "/modify"@, Seq::empty(), true),
        r.body == RequestBody::ModifyOrder(request),
{
    ApiRequest {
        method: HttpMethod::Post,
        path: concat3("/api/v1/orders/", order_id, "/modify"),
        query: no_query(),
        body: RequestBody::ModifyOrder(request),
        needs_account: true,
    }
}

/// Cancellation of an order (`POST /api/v1/orders/{orderId}/cancel`), without body.
pub fn cancel_order(order_id: &str) -> (r: ApiRequest)
    ensures
        r.is(HttpMethod::Post, "/api/v1/orders/"@ + order_id@ + "/cancel"@, Seq::empty(), true),
        r.body is Empty,
{
    request(HttpMethod::Post, concat3("/api/v1/orders/", order_id, "/cancel"), no_query(), true)
}

/// Buying power (`GET /api/v1/buying-power`).
pub fn get_buying_power(currency: Currency) -> (r: ApiRequest)
    ensures
        r.is(HttpMethod::Get, "/api/v1/buying-power"@, seq![("currency"@, currency.wire_name())], true),
        r.body is Empty,
{
    request(HttpMethod::Get, owned("/api/v1/buying-power"), entry("currency", owned(currency.as_str())), true)
}

/// Sellable quantity (`GET /api/v1/sellable-quantity`).
pub fn get_sellable_quantity(symbol: &str) -> (r: ApiRequest)
    ensures
        r.is(HttpMethod::Get, "/api/v1/sellable-quantity"@, seq![("symbol"@, symbol@)], true),
        r.body is Empty,
{
    request(HttpMethod::Get, owned("/api/v1/sellable-quantity"), entry("symbol", owned(symbol)), true)
}

/// Commission rates (`GET /api/v1/commissions`).
pub fn get_commissions() -> (r: ApiRequest)
    ensures
        r.is(HttpMethod::Get, "/api/v1/commissions"@, Seq::empty(), true),
        r.body is Empty,
{
    request(HttpMethod::Get, owned("/api/v1/commissions"), no_query(), true)
}

} // verus!
