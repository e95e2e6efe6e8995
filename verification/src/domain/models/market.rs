//! Quotes, order book, trades, candles, instrument information, price limits and exchange rates.
use vstd::prelude::*;

use super::common::Currency;

verus! {

/// Order book.
#[derive(Debug, Clone)]
pub struct OrderbookResponse {
    pub timestamp: Option<String>,
    pub currency: Currency,
    pub asks: Vec<OrderbookEntry>,
    pub bids: Vec<OrderbookEntry>,
}

/// One level of the order book.
#[derive(Debug, Clone)]
pub struct OrderbookEntry {
    pub price: String,
    pub volume: String,
}

/// Current price of one instrument.
#[derive(Debug, Clone)]
pub struct PriceResponse {
    pub symbol: String,
    pub timestamp: Option<String>,
    pub lastPrice: String,
    pub currency: Currency,
}

/// One trade.
#[derive(Debug, Clone)]
pub struct Trade {
    pub price: String,
    pub volume: String,
    pub timestamp: String,
    pub currency: Currency,
}

/// A candle (OHLCV).
#[derive(Debug, Clone)]
pub struct Candle {
    pub timestamp: String,
    pub openPrice: String,
    pub highPrice: String,
    pub lowPrice: String,
    pub closePrice: String,
    pub volume: String,
    pub currency: Currency,
}

/// A page of candles, newest first; `nextBefore` asks for the next page.
#[derive(Debug, Clone)]
pub struct CandlePageResponse {
    pub candles: Vec<Candle>,
    pub nextBefore: Option<String>,
}

/// Upper and lower price limits.
#[derive(Debug, Clone)]
pub struct PriceLimitResponse {
    pub timestamp: String,
    pub upperLimitPrice: Option<String>,
    pub lowerLimitPrice: Option<String>,
    pub currency: Currency,
}

/// Basic information on an instrument.
#[derive(Debug, Clone)]
pub struct StockInfo {
    pub symbol: String,
    pub name: String,
    pub englishName: String,
    pub isinCode: String,
    /// Market code (for example `KRX`, `NASDAQ`).
    pub market: String,
    /// Security type (for example `STOCK`, `ETF`).
    pub securityType: String,
    pub isCommonShare: bool,
    /// Listing status (for example `ACTIVE`, `DELISTED`).
    pub status: String,
    pub currency: Currency,
    pub listDate: Option<String>,
    pub delistDate: Option<String>,
    pub sharesOutstanding: String,
    pub leverageFactor: Option<String>,
    pub koreanMarketDetail: Option<KrMarketDetail>,
}

/// Korean market details of an instrument.
#[derive(Debug, Clone)]
pub struct KrMarketDetail {
    pub liquidationTrading: bool,
    pub nxtSupported: bool,
    pub krxTradingSuspended: bool,
    pub nxtTradingSuspended: Option<bool>,
}

/// An investment warning on an instrument.
#[derive(Debug, Clone)]
pub struct StockWarning {
    /// Warning kind (for example `MANAGEMENT`, `INVESTMENT_CAUTION`).
    pub warningType: String,
    pub exchange: Option<String>,
    pub startDate: Option<String>,
    pub endDate: Option<String>,
}

/// Exchange rate.
#[derive(Debug, Clone)]
pub struct ExchangeRateResponse {
    pub baseCurrency: Currency,
    pub quoteCurrency: Currency,
    pub rate: String,
    pub midRate: String,
    pub basisPoint: String,
    /// Direction of the change (for example `UP`, `DOWN`, `FLAT`).
    pub rateChangeType: String,
    pub validFrom: String,
    pub validUntil: String,
}

} // verus!
