//! Conditional (automatic) orders.
use vstd::prelude::*;
use vstd::string::*;

use super::common::{MarketCountry, OrderSide, OrderType};

verus! {

/// Kind of conditional order.
#[derive(Debug, Clone, Copy, PartialEq, Eq, Hash, Structural)]
pub enum ConditionalOrderType {
    /// One watched condition.
    Single,
    /// One-Cancels-the-Other: two conditions watched at once; when one is met the other is canceled.
    Oco,
    /// One-Triggers-the-Other: `second` is watched once `first` is filled.
    Oto,
}

/// Status of a conditional order (group).
#[derive(Debug, Clone, Copy, PartialEq, Eq, Hash, Structural)]
pub enum ConditionalOrderStatus {
    Watching,
    Paused,
    PlacingOrder,
    Ordered,
    Completed,
    Expired,
}

/// Status of one condition (leg).
#[derive(Debug, Clone, Copy, PartialEq, Eq, Hash, Structural)]
pub enum ConditionalOrderLegStatus {
    Watching,
    Holding,
    Paused,
    PlacingOrder,
    Ordered,
    Completed,
    Expired,
    Canceled,
}

/// What triggers a condition.
#[derive(Debug, Clone, Copy, PartialEq, Eq, Hash, Structural)]
pub enum ConditionalOrderLegType {
    /// A price is reached (stop).
    Stop,
    /// A target profit rate is reached.
    ProfitRate,
}

/// A watched condition in a request: "when this price is reached, trade".
#[derive(Debug, Clone)]
pub struct ConditionRequest {
    pub order_side: OrderSide,
    pub trigger_price: String,
    pub order_price: String,
}

impl ConditionRequest {
    pub fn new(order_side: OrderSide, trigger_price: &str, order_price: &str) -> (r: Self)
        ensures
            r.order_side == order_side,
            r.trigger_price@ == trigger_price@,
            r.order_price@ == order_price@,
    {
        ConditionRequest {
            order_side,
            trigger_price: String::from_str(trigger_price),
            order_price: String::from_str(order_price),
        }
    }
}

/// A watched condition in a response.
#[derive(Debug, Clone)]
pub struct ConditionalOrderCondition {
    pub leg_type: ConditionalOrderLegType,
    pub status: ConditionalOrderLegStatus,
    pub triggerPrice: Option<String>,
    pub targetProfitRate: Option<String>,
    pub orderPrice: Option<String>,
    pub triggeredOrderId: Option<String>,
}

/// Request to create a conditional order.
#[derive(Debug, Clone)]
pub struct ConditionalOrderCreateRequest {
    pub symbol: String,
    pub conditional_type: ConditionalOrderType,
    pub quantity: String,
    pub order_type: OrderType,
    pub client_order_id: Option<String>,
    pub expire_date: String,
    pub first: ConditionRequest,
    pub second: Option<ConditionRequest>,
    pub confirm_high_value_order: Option<bool>,
}

impl ConditionalOrderCreateRequest {
    pub fn new(
        symbol: &str,
        conditional_type: ConditionalOrderType,
        quantity: &str,
        order_type: OrderType,
        expire_date: &str,
        first: ConditionRequest,
    ) -> (r: Self)
        ensures
            r.symbol@ == symbol@,
            r.conditional_type == conditional_type,
            r.quantity@ == quantity@,
            r.order_type == order_type,
            r.client_order_id is None,
            r.expire_date@ == expire_date@,
            r.first == first,
            r.second is None,
            r.confirm_high_value_order is None,
    {
        ConditionalOrderCreateRequest {
            symbol: String::from_str(symbol),
            conditional_type,
            quantity: String::from_str(quantity),
            order_type,
            client_order_id: None,
            expire_date: String::from_str(expire_date),
            first,
            second: None,
            confirm_high_value_order: None,
        }
    }

    /// The second condition of an OCO or OTO order.
    pub fn second(self, second: ConditionRequest) -> (r: Self)
        ensures
            r == (ConditionalOrderCreateRequest { second: Some(second), ..self }),
    {
        ConditionalOrderCreateRequest { second: Some(second), ..self }
    }

    pub fn client_order_id(self, client_order_id: &str) -> (r: Self)
        ensures
            (match r.client_order_id {
                Some(id) => id@ == client_order_id@,
                None => false,
            }),
            r == (ConditionalOrderCreateRequest { client_order_id: r.client_order_id, ..self }),
    {
        ConditionalOrderCreateRequest { client_order_id: Some(String::from_str(client_order_id)), ..self }
    }

    pub fn confirm_high_value_order(self, confirm: bool) -> (r: Self)
        ensures
            r == (ConditionalOrderCreateRequest { confirm_high_value_order: Some(confirm), ..self }),
    {
        ConditionalOrderCreateRequest { confirm_high_value_order: Some(confirm), ..self }
    }
}

/// Request to modify a conditional order. It replaces the whole order, so the
/// conditions to keep are sent again.
#[derive(Debug, Clone)]
pub struct ConditionalOrderModifyRequest {
    pub conditional_type: ConditionalOrderType,
    pub quantity: String,
    pub order_type: OrderType,
    pub expire_date: String,
    pub first: ConditionRequest,
    pub second: Option<ConditionRequest>,
    pub confirm_high_value_order: Option<bool>,
}

impl ConditionalOrderModifyRequest {
    pub fn new(
        conditional_type: ConditionalOrderType,
        quantity: &str,
        order_type: OrderType,
        expire_date: &str,
        first: ConditionRequest,
    ) -> (r: Self)
        ensures
            r.conditional_type == conditional_type,
            r.quantity@ == quantity@,
            r.order_type == order_type,
            r.expire_date@ == expire_date@,
            r.first == first,
            r.second is None,
            r.confirm_high_value_order is None,
    {
        ConditionalOrderModifyRequest {
            conditional_type,
            quantity: String::from_str(quantity),
            order_type,
            expire_date: String::from_str(expire_date),
            first,
            second: None,
            confirm_high_value_order: None,
        }
    }

    pub fn second(self, second: ConditionRequest) -> (r: Self)
        ensures
            r == (ConditionalOrderModifyRequest { second: Some(second), ..self }),
    {
        ConditionalOrderModifyRequest { second: Some(second), ..self }
    }

    pub fn confirm_high_value_order(self, confirm: bool) -> (r: Self)
        ensures
            r == (ConditionalOrderModifyRequest { confirm_high_value_order: Some(confirm), ..self }),
    {
        ConditionalOrderModifyRequest { confirm_high_value_order: Some(confirm), ..self }
    }
}

/// Answer to a conditional order creation.
#[derive(Debug, Clone)]
pub struct ConditionalOrderCreateResponse {
    pub conditionalOrderId: String,
    pub clientOrderId: Option<String>,
}

/// Answer to a conditional order modification or cancellation.
#[derive(Debug, Clone)]
pub struct ConditionalOrderResponse {
    pub conditionalOrderId: String,
}

/// A conditional order (list entry and detail).
#[derive(Debug, Clone)]
pub struct ConditionalOrderDetailResponse {
    pub conditionalOrderId: String,
    pub conditional_type: ConditionalOrderType,
    pub status: ConditionalOrderStatus,
    pub symbol: String,
    pub market: MarketCountry,
    pub quantity: String,
    pub orderType: OrderType,
    pub expireDate: String,
    pub first: ConditionalOrderCondition,
    pub second: Option<ConditionalOrderCondition>,
    pub createdAt: String,
}

/// A page of conditional orders.
#[derive(Debug, Clone)]
pub struct PaginatedConditionalOrderResponse {
    pub conditionalOrders: Vec<ConditionalOrderDetailResponse>,
    pub nextCursor: Option<String>,
    pub hasNext: bool,
}

} // verus!
