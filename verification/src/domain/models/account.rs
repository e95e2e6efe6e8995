//! Account and holdings models.
use vstd::prelude::*;

use super::common::{AccountType, Currency, MarketCountry, Price};

verus! {

/// An account.
#[derive(Debug, Clone)]
pub struct Account {
    /// Account number.
    pub accountNo: String,
    /// Account identifier used in requests (the `AccountSeq` header).
    pub accountSeq: i64,
    pub accountType: AccountType,
}

/// Overview of the holdings of an account.
#[derive(Debug, Clone)]
pub struct HoldingsOverview {
    pub totalPurchaseAmount: Price,
    pub marketValue: OverviewMarketValue,
    pub profitLoss: OverviewProfitLoss,
    pub dailyProfitLoss: OverviewDailyProfitLoss,
    pub items: Vec<HoldingsItem>,
}

/// Market value summary.
#[derive(Debug, Clone)]
pub struct OverviewMarketValue {
    pub amount: Price,
    pub amountAfterCost: Price,
}

/// Profit and loss summary.
#[derive(Debug, Clone)]
pub struct OverviewProfitLoss {
    pub amount: Price,
    pub amountAfterCost: Price,
    pub rate: String,
    pub rateAfterCost: String,
}

/// Daily profit and loss summary.
#[derive(Debug, Clone)]
pub struct OverviewDailyProfitLoss {
    pub amount: Price,
    pub rate: String,
}

/// One held instrument.
#[derive(Debug, Clone)]
pub struct HoldingsItem {
    pub symbol: String,
    pub name: String,
    pub marketCountry: MarketCountry,
    pub currency: Currency,
    pub quantity: String,
    pub lastPrice: String,
    pub averagePurchasePrice: String,
    pub marketValue: MarketValue,
    pub profitLoss: ProfitLoss,
    pub dailyProfitLoss: DailyProfitLoss,
    pub cost: Cost,
}

/// Market value of one holding.
#[derive(Debug, Clone)]
pub struct MarketValue {
    pub purchaseAmount: String,
    pub amount: String,
    pub amountAfterCost: String,
}

/// Profit and loss of one holding.
#[derive(Debug, Clone)]
pub struct ProfitLoss {
    pub amount: String,
    pub amountAfterCost: String,
    pub rate: String,
    pub rateAfterCost: String,
}

/// Daily profit and loss of one holding.
#[derive(Debug, Clone)]
pub struct DailyProfitLoss {
    pub amount: String,
    pub rate: String,
}

/// Commission and tax.
#[derive(Debug, Clone)]
pub struct Cost {
    pub commission: String,
    pub tax: Option<String>,
}

} // verus!
