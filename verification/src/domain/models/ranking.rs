//! Rankings by trading amount, volume and price change.
use vstd::prelude::*;

use super::common::Currency;

verus! {

/// A ranking.
#[derive(Debug, Clone)]
pub struct RankingResponse {
    /// When the ranking was computed.
    pub rankedAt: Option<String>,
    pub rankings: Vec<RankingItem>,
}

/// One entry of a ranking.
#[derive(Debug, Clone)]
pub struct RankingItem {
    /// Rank, starting at 1.
    pub rank: i64,
    pub symbol: String,
    pub currency: Currency,
    pub price: RankingPrice,
    pub tradingVolume: String,
    pub tradingAmount: String,
}

/// Price information of a ranking entry.
#[derive(Debug, Clone)]
pub struct RankingPrice {
    pub lastPrice: String,
    pub basePrice: String,
    pub changeRate: Option<String>,
}

} // verus!
