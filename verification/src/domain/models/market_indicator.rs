//! Market indicators (KOSPI, KOSDAQ, S&P 500, ...): prices, candles and trading by investor type.
use vstd::prelude::*;

verus! {

/// Current value of a market indicator.
#[derive(Debug, Clone)]
pub struct MarketIndicatorPriceResponse {
    pub symbol: String,
    pub timestamp: Option<String>,
    pub lastPrice: String,
}

/// A page of market indicator candles.
#[derive(Debug, Clone)]
pub struct MarketIndicatorCandlePageResponse {
    pub candles: Vec<MarketIndicatorCandle>,
    pub nextBefore: Option<String>,
}

/// A market indicator candle.
#[derive(Debug, Clone)]
pub struct MarketIndicatorCandle {
    pub timestamp: String,
    pub openPrice: String,
    pub highPrice: String,
    pub lowPrice: String,
    pub closePrice: String,
    pub volume: String,
}

/// Trading by investor type.
#[derive(Debug, Clone)]
pub struct InvestorTradingResponse {
    /// Cursor of the next page.
    pub nextUntil: Option<String>,
    pub records: Vec<InvestorTradingRecord>,
}

/// Trading by investor type on one day.
#[derive(Debug, Clone)]
pub struct InvestorTradingRecord {
    /// Day (`YYYY-MM-DD`).
    pub date: String,
    /// Last update of the record (RFC3339).
    pub updatedAt: String,
    pub individual: InvestorTradingAmount,
    /// Foreign investors, registered or not.
    pub foreigner: InvestorTradingAmount,
    /// Institutions (amounts are the sums of the seven items of `breakdown`).
    pub institution: InstitutionTradingAmount,
    /// Other corporations.
    pub otherCorporation: InvestorTradingAmount,
}

/// Bought and sold amounts.
#[derive(Debug, Clone)]
pub struct InvestorTradingAmount {
    pub buyAmount: String,
    pub sellAmount: String,
}

/// Institutional amounts with their breakdown.
#[derive(Debug, Clone)]
pub struct InstitutionTradingAmount {
    pub buyAmount: String,
    pub sellAmount: String,
    pub breakdown: InstitutionTradingBreakdown,
}

/// Breakdown of institutional trading.
#[derive(Debug, Clone)]
pub struct InstitutionTradingBreakdown {
    pub financialInvestment: Option<InvestorTradingAmount>,
    pub insurance: Option<InvestorTradingAmount>,
    pub trust: Option<InvestorTradingAmount>,
    pub privateEquityFund: Option<InvestorTradingAmount>,
    pub bank: Option<InvestorTradingAmount>,
    pub otherFinancialInstitution: Option<InvestorTradingAmount>,
    pub pensionFund: Option<InvestorTradingAmount>,
}

} // verus!
