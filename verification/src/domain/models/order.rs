//! Order requests and responses.
use vstd::prelude::*;
use vstd::string::*;

use super::common::{Currency, OrderSide, OrderStatus, OrderType, TimeInForce};

verus! {

/// An order.
#[derive(Debug, Clone)]
pub struct Order {
    pub orderId: String,
    pub symbol: String,
    pub side: OrderSide,
    pub orderType: OrderType,
    pub timeInForce: TimeInForce,
    pub status: OrderStatus,
    pub price: Option<String>,
    pub quantity: String,
    pub orderAmount: Option<String>,
    pub currency: Currency,
    pub orderedAt: String,
    pub canceledAt: Option<String>,
    pub execution: OrderExecution,
}

/// Execution of an order.
#[derive(Debug, Clone)]
pub struct OrderExecution {
    pub filledQuantity: String,
    pub averageFilledPrice: Option<String>,
    pub filledAmount: Option<String>,
    pub commission: Option<String>,
    pub tax: Option<String>,
    pub filledAt: Option<String>,
    pub settlementDate: Option<String>,
}

/// Answer to an order creation.
#[derive(Debug, Clone)]
pub struct OrderResponse {
    pub orderId: String,
    pub clientOrderId: Option<String>,
}

/// Answer to an order modification or cancellation.
#[derive(Debug, Clone)]
pub struct OrderOperationResponse {
    pub orderId: String,
}

/// Request to create an order.
///
/// One structure holds both forms: by quantity (`quantity`) and by amount
/// (`order_amount`). [`OrderCreateRequest::quantity_based`] and
/// [`OrderCreateRequest::amount_based`] build them; the other methods fill in
/// the optional fields. Absent fields are left out of the request body.
#[derive(Debug, Clone)]
pub struct OrderCreateRequest {
    pub symbol: String,
    pub side: OrderSide,
    pub order_type: OrderType,
    /// Quantity of an order by quantity.
    pub quantity: Option<String>,
    /// Limit price (order by quantity with `LIMIT`).
    pub price: Option<String>,
    /// Time in force (order by quantity).
    pub time_in_force: Option<TimeInForce>,
    /// Amount of an order by amount.
    pub order_amount: Option<String>,
    /// Client order identifier (idempotency key).
    pub client_order_id: Option<String>,
    /// Consent to an order of 100 million won or more.
    pub confirm_high_value_order: Option<bool>,
}

impl OrderCreateRequest {
    /// Order by quantity. For a `LIMIT` order, set the price with [`Self::price`].
    pub fn quantity_based(symbol: &str, side: OrderSide, order_type: OrderType, quantity: &str) -> (r: Self)
        ensures
            r.symbol@ == symbol@,
            r.side == side,
            r.order_type == order_type,
            crate::text::opt_text(r.quantity) == Some(quantity@),
            r.price is None,
            r.time_in_force is None,
            r.order_amount is None,
            r.client_order_id is None,
            r.confirm_high_value_order is None,
    {
        OrderCreateRequest {
            symbol: String::from_str(symbol),
            side,
            order_type,
            quantity: Some(String::from_str(quantity)),
            price: None,
            time_in_force: None,
            order_amount: None,
            client_order_id: None,
            confirm_high_value_order: None,
        }
    }

    /// Order by amount; such an order is always a `MARKET` order.
    pub fn amount_based(symbol: &str, side: OrderSide, order_amount: &str) -> (r: Self)
        ensures
            r.symbol@ == symbol@,
            r.side == side,
            r.order_type == OrderType::Market,
            r.quantity is None,
            r.price is None,
            r.time_in_force is None,
            crate::text::opt_text(r.order_amount) == Some(order_amount@),
            r.client_order_id is None,
            r.confirm_high_value_order is None,
    {
        OrderCreateRequest {
            symbol: String::from_str(symbol),
            side,
            order_type: OrderType::Market,
            quantity: None,
            price: None,
            time_in_force: None,
            order_amount: Some(String::from_str(order_amount)),
            client_order_id: None,
            confirm_high_value_order: None,
        }
    }

    pub fn price(self, price: &str) -> (r: Self)
        ensures
            crate::text::opt_text(r.price) == Some(price@),
            r == (OrderCreateRequest { price: r.price, ..self }),
    {
        OrderCreateRequest { price: Some(String::from_str(price)), ..self }
    }

    pub fn time_in_force(self, time_in_force: TimeInForce) -> (r: Self)
        ensures
            r == (OrderCreateRequest { time_in_force: Some(time_in_force), ..self }),
    {
        OrderCreateRequest { time_in_force: Some(time_in_force), ..self }
    }

    pub fn client_order_id(self, client_order_id: &str) -> (r: Self)
        ensures
            crate::text::opt_text(r.client_order_id) == Some(client_order_id@),
            r == (OrderCreateRequest { client_order_id: r.client_order_id, ..self }),
    {
        OrderCreateRequest { client_order_id: Some(String::from_str(client_order_id)), ..self }
    }

    pub fn confirm_high_value_order(self, confirm: bool) -> (r: Self)
        ensures
            r == (OrderCreateRequest { confirm_high_value_order: Some(confirm), ..self }),
    {
        OrderCreateRequest { confirm_high_value_order: Some(confirm), ..self }
    }
}

/// Request to modify an order.
#[derive(Debug, Clone)]
pub struct OrderModifyRequest {
    pub order_type: OrderType,
    pub quantity: String,
    pub price: String,
    pub confirm_high_value_order: bool,
}

impl OrderModifyRequest {
    pub fn new(order_type: OrderType, quantity: &str, price: &str, confirm_high_value_order: bool) -> (r: Self)
        ensures
            r.order_type == order_type,
            r.quantity@ == quantity@,
            r.price@ == price@,
            r.confirm_high_value_order == confirm_high_value_order,
    {
        OrderModifyRequest {
            order_type,
            quantity: String::from_str(quantity),
            price: String::from_str(price),
            confirm_high_value_order,
        }
    }
}

} // verus!
