//! The success envelope and the enumerations used across the API.
use vstd::prelude::*;

verus! {

/// Success envelope: every business endpoint answers `{"result": T}`.
#[derive(Debug, Clone)]
pub struct ApiResponse<T> {
    pub result: T,
}

/// Currency.
#[derive(Debug, Clone, Copy, PartialEq, Eq, Hash, Structural)]
pub enum Currency {
    Krw,
    Usd,
}

impl Currency {
    /// The name of the currency on the wire.
    pub open spec fn wire_name(self) -> Seq<char> {
        match self {
            Currency::Krw => "KRW"@,
            Currency::Usd => "USD"@,
        }
    }

    pub fn as_str(&self) -> (r: &'static str)
        ensures
            r@ == self.wire_name(),
    {
        match self {
            Currency::Krw => "KRW",
            Currency::Usd => "USD",
        }
    }
}

/// Market country.
#[derive(Debug, Clone, Copy, PartialEq, Eq, Hash, Structural)]
pub enum MarketCountry {
    Kr,
    Us,
}

impl MarketCountry {
    /// The name of the market country on the wire.
    pub open spec fn wire_name(self) -> Seq<char> {
        match self {
            MarketCountry::Kr => "KR"@,
            MarketCountry::Us => "US"@,
        }
    }

    pub fn as_str(&self) -> (r: &'static str)
        ensures
            r@ == self.wire_name(),
    {
        match self {
            MarketCountry::Kr => "KR",
            MarketCountry::Us => "US",
        }
    }
}

/// Account type.
#[derive(Debug, Clone, Copy, PartialEq, Eq, Hash, Structural)]
pub enum AccountType {
    Brokerage,
    OverseasDerivatives,
    PensionSavings,
    ReshoringInvestment,
}

/// Order status.
#[derive(Debug, Clone, Copy, PartialEq, Eq, Hash, Structural)]
pub enum OrderStatus {
    Pending,
    PendingCancel,
    PendingReplace,
    PartialFilled,
    Filled,
    Canceled,
    Rejected,
    CancelRejected,
    ReplaceRejected,
    Replaced,
}

/// Order side.
#[derive(Debug, Clone, Copy, PartialEq, Eq, Hash, Structural)]
pub enum OrderSide {
    Buy,
    Sell,
}

/// Order (price) type.
#[derive(Debug, Clone, Copy, PartialEq, Eq, Hash, Structural)]
pub enum OrderType {
    Limit,
    Market,
}

/// Time in force.
#[derive(Debug, Clone, Copy, PartialEq, Eq, Hash, Structural)]
pub enum TimeInForce {
    /// Day order (or KRX regular session).
    Day,
    /// At the close (US after-market execution).
    Cls,
    /// At the open (US pre-market opening).
    Opg,
}

/// Status filter of the order lists.
#[derive(Debug, Clone, Copy, PartialEq, Eq, Hash, Structural)]
pub enum OrderListStatus {
    /// Unfilled (accepted or partially filled).
    Open,
    /// Filled, canceled or rejected.
    Closed,
}

impl OrderListStatus {
    /// The name of the filter on the wire.
    pub open spec fn wire_name(self) -> Seq<char> {
        match self {
            OrderListStatus::Open => "OPEN"@,
            OrderListStatus::Closed => "CLOSED"@,
        }
    }

    pub fn as_str(&self) -> (r: &'static str)
        ensures
            r@ == self.wire_name(),
    {
        match self {
            OrderListStatus::Open => "OPEN",
            OrderListStatus::Closed => "CLOSED",
        }
    }
}

/// Candle interval.
#[derive(Debug, Clone, Copy, PartialEq, Eq, Hash, Structural)]
pub enum CandleInterval {
    OneMinute,
    OneDay,
}

impl CandleInterval {
    /// The name of the interval on the wire.
    pub open spec fn wire_name(self) -> Seq<char> {
        match self {
            CandleInterval::OneMinute => "1m"@,
            CandleInterval::OneDay => "1d"@,
        }
    }

    pub fn as_str(&self) -> (r: &'static str)
        ensures
            r@ == self.wire_name(),
    {
        match self {
            CandleInterval::OneMinute => "1m",
            CandleInterval::OneDay => "1d",
        }
    }
}

/// Kind of ranking (trading amount, volume, gainers, losers).
#[derive(Debug, Clone, Copy, PartialEq, Eq, Hash, Structural)]
pub enum RankingType {
    MarketTradingAmount,
    MarketTradingVolume,
    TopGainers,
    TopLosers,
    TossSecuritiesTradingAmount,
    TossSecuritiesTradingVolume,
}

impl RankingType {
    /// The name of the ranking kind on the wire.
    pub open spec fn wire_name(self) -> Seq<char> {
        match self {
            RankingType::MarketTradingAmount => "MARKET_TRADING_AMOUNT"@,
            RankingType::MarketTradingVolume => "MARKET_TRADING_VOLUME"@,
            RankingType::TopGainers => "TOP_GAINERS"@,
            RankingType::TopLosers => "TOP_LOSERS"@,
            RankingType::TossSecuritiesTradingAmount => "TOSS_SECURITIES_TRADING_AMOUNT"@,
            RankingType::TossSecuritiesTradingVolume => "TOSS_SECURITIES_TRADING_VOLUME"@,
        }
    }

    pub fn as_str(&self) -> (r: &'static str)
        ensures
            r@ == self.wire_name(),
    {
        match self {
            RankingType::MarketTradingAmount => "MARKET_TRADING_AMOUNT",
            RankingType::MarketTradingVolume => "MARKET_TRADING_VOLUME",
            RankingType::TopGainers => "TOP_GAINERS",
            RankingType::TopLosers => "TOP_LOSERS",
            RankingType::TossSecuritiesTradingAmount => "TOSS_SECURITIES_TRADING_AMOUNT",
            RankingType::TossSecuritiesTradingVolume => "TOSS_SECURITIES_TRADING_VOLUME",
        }
    }
}

/// Period over which a ranking is computed.
#[derive(Debug, Clone, Copy, PartialEq, Eq, Hash, Structural)]
pub enum RankingDuration {
    Realtime,
    OneDay,
    OneWeek,
    OneMonth,
    ThreeMonths,
    SixMonths,
    OneYear,
}

impl RankingDuration {
    /// The name of the period on the wire.
    pub open spec fn wire_name(self) -> Seq<char> {
        match self {
            RankingDuration::Realtime => "realtime"@,
            RankingDuration::OneDay => "1d"@,
            RankingDuration::OneWeek => "1w"@,
            RankingDuration::OneMonth => "1mo"@,
            RankingDuration::ThreeMonths => "3mo"@,
            RankingDuration::SixMonths => "6mo"@,
            RankingDuration::OneYear => "1y"@,
        }
    }

    pub fn as_str(&self) -> (r: &'static str)
        ensures
            r@ == self.wire_name(),
    {
        match self {
            RankingDuration::Realtime => "realtime",
            RankingDuration::OneDay => "1d",
            RankingDuration::OneWeek => "1w",
            RankingDuration::OneMonth => "1mo",
            RankingDuration::ThreeMonths => "3mo",
            RankingDuration::SixMonths => "6mo",
            RankingDuration::OneYear => "1y",
        }
    }
}

/// An amount per currency: `krw` is always present, `usd` only for US market data.
#[derive(Debug, Clone)]
pub struct Price {
    pub krw: String,
    pub usd: Option<String>,
}

/// Distinct values of each enumeration are written differently on the wire, so a
/// query parameter names the value that was passed.
pub proof fn lemma_wire_names_distinct()
    ensures
        forall|a: Currency, b: Currency| a != b ==> a.wire_name() != b.wire_name(),
        forall|a: MarketCountry, b: MarketCountry| a != b ==> a.wire_name() != b.wire_name(),
        forall|a: OrderListStatus, b: OrderListStatus| a != b ==> a.wire_name() != b.wire_name(),
        forall|a: CandleInterval, b: CandleInterval| a != b ==> a.wire_name() != b.wire_name(),
        forall|a: RankingType, b: RankingType| a != b ==> a.wire_name() != b.wire_name(),
        forall|a: RankingDuration, b: RankingDuration| a != b ==> a.wire_name() != b.wire_name(),
{
    reveal_strlit("KRW");
    reveal_strlit("USD");
    reveal_strlit("KR");
    reveal_strlit("US");
    reveal_strlit("OPEN");
    reveal_strlit("CLOSED");
    reveal_strlit("1m");
    reveal_strlit("1d");
    reveal_strlit("MARKET_TRADING_AMOUNT");
    reveal_strlit("MARKET_TRADING_VOLUME");
    reveal_strlit("TOP_GAINERS");
    reveal_strlit("TOP_LOSERS");
    reveal_strlit("TOSS_SECURITIES_TRADING_AMOUNT");
    reveal_strlit("TOSS_SECURITIES_TRADING_VOLUME");
    reveal_strlit("realtime");
    reveal_strlit("1w");
    reveal_strlit("1mo");
    reveal_strlit("3mo");
    reveal_strlit("6mo");
    reveal_strlit("1y");
    assert(forall|a: Currency, b: Currency| a != b ==> a.wire_name()[0] != b.wire_name()[0]);
    assert(forall|a: MarketCountry, b: MarketCountry| a != b ==> a.wire_name()[0] != b.wire_name()[0]);
    assert(forall|a: OrderListStatus, b: OrderListStatus| a != b ==> a.wire_name()[0] != b.wire_name()[0]);
    assert(forall|a: CandleInterval, b: CandleInterval| a != b ==> a.wire_name()[1] != b.wire_name()[1]);
    assert(forall|a: RankingType, b: RankingType| a != b ==> a.wire_name() != b.wire_name()) by {
        assert(forall|a: RankingType, b: RankingType| a != b ==> (a.wire_name().len() != b.wire_name().len()
            || a.wire_name()[0] != b.wire_name()[0] || a.wire_name()[a.wire_name().len() - 1] != b.wire_name()[b.wire_name().len() - 1]
            || a.wire_name()[4] != b.wire_name()[4]));
    }
    assert(forall|a: RankingDuration, b: RankingDuration| a != b ==> (a.wire_name().len() != b.wire_name().len()
        || a.wire_name()[0] != b.wire_name()[0] || a.wire_name()[1] != b.wire_name()[1]));
}

} // verus!
