//! Buying power, sellable quantity, commissions and pages of orders.
use vstd::prelude::*;

use super::common::{Currency, MarketCountry};
use super::order::Order;

verus! {

/// Buying power.
#[derive(Debug, Clone)]
pub struct BuyingPowerResponse {
    pub currency: Currency,
    pub cashBuyingPower: String,
}

/// Commission rate.
#[derive(Debug, Clone)]
pub struct Commission {
    pub marketCountry: MarketCountry,
    pub commissionRate: String,
    pub startDate: Option<String>,
    pub endDate: Option<String>,
}

/// Sellable quantity.
#[derive(Debug, Clone)]
pub struct SellableQuantityResponse {
    pub sellableQuantity: String,
}

/// A page of orders.
#[derive(Debug, Clone)]
pub struct PaginatedOrderResponse {
    pub orders: Vec<Order>,
    pub nextCursor: Option<String>,
    pub hasNext: bool,
}

} // verus!
