//! Business-day calendars and trading sessions of the Korean and US markets.
use vstd::prelude::*;

verus! {

/// Korean market calendar.
#[derive(Debug, Clone)]
pub struct KrMarketCalendarResponse {
    pub today: KrMarketDay,
    pub previousBusinessDay: KrMarketDay,
    pub nextBusinessDay: KrMarketDay,
}

/// A Korean business day.
#[derive(Debug, Clone)]
pub struct KrMarketDay {
    /// Business day (KST, `YYYY-MM-DD`).
    pub date: String,
    /// Integrated (KRX+NXT) trading hours; absent when both are closed.
    pub integrated: Option<IntegratedHour>,
}

/// Integrated trading hours (special sessions excluded).
#[derive(Debug, Clone)]
pub struct IntegratedHour {
    pub preMarket: Option<PreMarketSession>,
    pub regularMarket: Option<RegularMarketSession>,
    pub afterMarket: Option<AfterMarketSession>,
}

/// Pre-market session (NXT).
#[derive(Debug, Clone)]
pub struct PreMarketSession {
    pub startTime: String,
    pub singlePriceAuctionStartTime: Option<String>,
    pub endTime: String,
}

/// Regular session (union of KRX and NXT).
#[derive(Debug, Clone)]
pub struct RegularMarketSession {
    pub startTime: String,
    pub singlePriceAuctionStartTime: Option<String>,
    pub endTime: String,
}

/// After-market session (NXT).
#[derive(Debug, Clone)]
pub struct AfterMarketSession {
    pub startTime: String,
    pub singlePriceAuctionEndTime: Option<String>,
    pub endTime: String,
}

/// US market calendar.
#[derive(Debug, Clone)]
pub struct UsMarketCalendarResponse {
    pub today: UsMarketDay,
    pub previousBusinessDay: UsMarketDay,
    pub nextBusinessDay: UsMarketDay,
}

/// A US business day.
#[derive(Debug, Clone)]
pub struct UsMarketDay {
    /// Business day (US local time, `YYYY-MM-DD`).
    pub date: String,
    pub dayMarket: Option<UsDayMarketSession>,
    pub preMarket: Option<UsPreMarketSession>,
    pub regularMarket: Option<UsRegularMarketSession>,
    pub afterMarket: Option<UsAfterMarketSession>,
}

/// US day-market session.
#[derive(Debug, Clone)]
pub struct UsDayMarketSession {
    pub startTime: String,
    pub endTime: String,
}

/// US pre-market session.
#[derive(Debug, Clone)]
pub struct UsPreMarketSession {
    pub startTime: String,
    pub endTime: String,
}

/// US regular session.
#[derive(Debug, Clone)]
pub struct UsRegularMarketSession {
    pub startTime: String,
    pub endTime: String,
}

/// US after-market session.
#[derive(Debug, Clone)]
pub struct UsAfterMarketSession {
    pub startTime: String,
    pub endTime: String,
}

} // verus!
