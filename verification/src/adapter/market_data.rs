//! Market data endpoints: quotes, order book, trades, candles, instruments,
//! rankings, exchange rates, market calendars and market indicators. None of
//! them is scoped to an account.
use vstd::prelude::*;

use super::{
    count_text, entries2, entries3, entry, flag_text, no_query, push_opt, request, str_text, ApiRequest,
    HttpMethod,
};
use crate::domain::models::{CandleInterval, Currency, MarketCountry, RankingDuration, RankingType};
use crate::text::{concat3, join_strs, owned};

verus! {

/// Order book (`GET /api/v1/orderbook`).
pub fn get_orderbook(symbol: &str) -> (r: ApiRequest)
    ensures
        r.is(HttpMethod::Get, "/api/v1/orderbook"@, seq![("symbol"@, symbol@)], false),
        r.body is Empty,
{
    request(HttpMethod::Get, owned("/api/v1/orderbook"), entry("symbol", owned(symbol)), false)
}

/// Current prices of `symbols` (`GET /api/v1/prices`); the symbols travel joined by commas.
pub fn get_prices(symbols: &[&str]) -> (r: ApiRequest)
    ensures
        r.is(
            HttpMethod::Get,
            "/api/v1/prices"@,
            seq![("symbols"@, crate::text::join(crate::text::str_views(symbols@), ","@))],
            false,
        ),
        r.body is Empty,
{
    request(HttpMethod::Get, owned("/api/v1/prices"), entry("symbols", join_strs(symbols, ",")), false)
}

/// Trades (`GET /api/v1/trades`); `count` defaults to 50 on the server (at most 50).
pub fn get_trades(symbol: &str, count: Option<u32>) -> (r: ApiRequest)
    ensures
        r.is(
            HttpMethod::Get,
            "/api/v1/trades"@,
            seq![("symbol"@, symbol@)] + super::optional_entry("count"@, super::opt_decimal(count)),
            false,
        ),
        r.body is Empty,
{
    let mut query = entry("symbol", owned(symbol));
    push_opt(&mut query, "count", count_text(count));
    request(HttpMethod::Get, owned("/api/v1/trades"), query, false)
}

/// Price limits (`GET /api/v1/price-limits`).
pub fn get_price_limit(symbol: &str) -> (r: ApiRequest)
    ensures
        r.is(HttpMethod::Get, "/api/v1/price-limits"@, seq![("symbol"@, symbol@)], false),
        r.body is Empty,
{
    request(HttpMethod::Get, owned("/api/v1/price-limits"), entry("symbol", owned(symbol)), false)
}

/// Candles (`GET /api/v1/candles`).
pub fn get_candles(
    symbol: &str,
    interval: CandleInterval,
    count: Option<u32>,
    before: Option<&str>,
    adjusted: Option<bool>,
) -> (r: ApiRequest)
    ensures
        r.is(
            HttpMethod::Get,
            "/api/v1/candles"@,
            seq![("symbol"@, symbol@), ("interval"@, interval.wire_name())]
                + super::optional_entry("count"@, super::opt_decimal(count))
                + super::optional_entry("before"@, super::opt_str(before))
                + super::optional_entry("adjusted"@, super::opt_bool(adjusted)),
            false,
        ),
        r.body is Empty,
{
    let mut query = entries2("symbol", owned(symbol), "interval", owned(interval.as_str()));
    push_opt(&mut query, "count", count_text(count));
    push_opt(&mut query, "before", str_text(before));
    push_opt(&mut query, "adjusted", flag_text(adjusted));
    request(HttpMethod::Get, owned("/api/v1/candles"), query, false)
}

/// Instrument information of `symbols` (`GET /api/v1/stocks`).
pub fn get_stocks(symbols: &[&str]) -> (r: ApiRequest)
    ensures
        r.is(
            HttpMethod::Get,
            "/api/v1/stocks"@,
            seq![("symbols"@, crate::text::join(crate::text::str_views(symbols@), ","@))],
            false,
        ),
        r.body is Empty,
{
    request(HttpMethod::Get, owned("/api/v1/stocks"), entry("symbols", join_strs(symbols, ",")), false)
}

/// Investment warnings on an instrument (`GET /api/v1/stocks/{symbol}/warnings`).
pub fn get_stock_warnings(symbol: &str) -> (r: ApiRequest)
    ensures
        r.is(HttpMethod::Get, "/api/v1/stocks/"@ + symbol@ + "/warnings"@, Seq::empty(), false),
        r.body is Empty,
{
    request(HttpMethod::Get, concat3("/api/v1/stocks/", symbol, "/warnings"), no_query(), false)
}

/// Exchange rate (`GET /api/v1/exchange-rate`).
pub fn get_exchange_rate(date_time: Option<&str>, base_currency: Currency, quote_currency: Currency) -> (r: ApiRequest)
    ensures
        r.is(
            HttpMethod::Get,
            "/api/v1/exchange-rate"@,
            seq![("baseCurrency"@, base_currency.wire_name()), ("quoteCurrency"@, quote_currency.wire_name())]
                + super::optional_entry("dateTime"@, super::opt_str(date_time)),
            false,
        ),
        r.body is Empty,
{
    let mut query = entries2(
        "baseCurrency",
        owned(base_currency.as_str()),
        "quoteCurrency",
        owned(quote_currency.as_str()),
    );
    push_opt(&mut query, "dateTime", str_text(date_time));
    request(HttpMethod::Get, owned("/api/v1/exchange-rate"), query, false)
}

/// Korean market calendar (`GET /api/v1/market-calendar/KR`).
pub fn get_kr_market_calendar(date: Option<&str>) -> (r: ApiRequest)
    ensures
        r.is(
            HttpMethod::Get,
            "/api/v1/market-calendar/KR"@,
            Seq::empty() + super::optional_entry("date"@, super::opt_str(date)),
            false,
        ),
        r.body is Empty,
{
    let mut query = no_query();
    push_opt(&mut query, "date", str_text(date));
    request(HttpMethod::Get, owned("/api/v1/market-calendar/KR"), query, false)
}

/// US market calendar (`GET /api/v1/market-calendar/US`).
pub fn get_us_market_calendar(date: Option<&str>) -> (r: ApiRequest)
    ensures
        r.is(
            HttpMethod::Get,
            "/api/v1/market-calendar/US"@,
            Seq::empty() + super::optional_entry("date"@, super::opt_str(date)),
            false,
        ),
        r.body is Empty,
{
    let mut query = no_query();
    push_opt(&mut query, "date", str_text(date));
    request(HttpMethod::Get, owned("/api/v1/market-calendar/US"), query, false)
}

/// Rankings (`GET /api/v1/rankings`).
pub fn get_rankings(
    ranking_type: RankingType,
    market_country: MarketCountry,
    duration: RankingDuration,
    exclude_investment_caution: Option<bool>,
    count: Option<u32>,
) -> (r: ApiRequest)
    ensures
        r.is(
            HttpMethod::Get,
            "/api/v1/rankings"@,
            seq![
                ("type"@, ranking_type.wire_name()),
                ("marketCountry"@, market_country.wire_name()),
                ("duration"@, duration.wire_name()),
            ] + super::optional_entry("excludeInvestmentCaution"@, super::opt_bool(exclude_investment_caution))
                + super::optional_entry("count"@, super::opt_decimal(count)),
            false,
        ),
        r.body is Empty,
{
    let mut query = entries3(
        "type",
        owned(ranking_type.as_str()),
        "marketCountry",
        owned(market_country.as_str()),
        "duration",
        owned(duration.as_str()),
    );
    push_opt(&mut query, "excludeInvestmentCaution", flag_text(exclude_investment_caution));
    push_opt(&mut query, "count", count_text(count));
    request(HttpMethod::Get, owned("/api/v1/rankings"), query, false)
}

/// Current values of market indicators (`GET /api/v1/market-indicators/prices`).
pub fn get_market_indicator_prices(symbols: &[&str]) -> (r: ApiRequest)
    ensures
        r.is(
            HttpMethod::Get,
            "/api/v1/market-indicators/prices"@,
            seq![("symbols"@, crate::text::join(crate::text::str_views(symbols@), ","@))],
            false,
        ),
        r.body is Empty,
{
    request(
        HttpMethod::Get,
        owned("/api/v1/market-indicators/prices"),
        entry("symbols", join_strs(symbols, ",")),
        false,
    )
}

/// Market indicator candles (`GET /api/v1/market-indicators/{symbol}/candles`).
pub fn get_market_indicator_candles(
    symbol: &str,
    interval: CandleInterval,
    count: Option<u32>,
    before: Option<&str>,
) -> (r: ApiRequest)
    ensures
        r.is(
            HttpMethod::Get,
            "/api/v1/market-indicators/"@ + symbol@ + "/candles"@,
            seq![("interval"@, interval.wire_name())]
                + super::optional_entry("count"@, super::opt_decimal(count))
                + super::optional_entry("before"@, super::opt_str(before)),
            false,
        ),
        r.body is Empty,
{
    let mut query = entry("interval", owned(interval.as_str()));
    push_opt(&mut query, "count", count_text(count));
    push_opt(&mut query, "before", str_text(before));
    request(HttpMethod::Get, concat3("/api/v1/market-indicators/", symbol, "/candles"), query, false)
}

/// Trading by investor type on a market indicator
/// (`GET /api/v1/market-indicators/{symbol}/investor-trading`).
pub fn get_market_indicator_investor_trading(
    symbol: &str,
    interval: CandleInterval,
    count: Option<u32>,
    until: Option<&str>,
) -> (r: ApiRequest)
    ensures
        r.is(
            HttpMethod::Get,
            "/api/v1/market-indicators/"@ + symbol@ + "/investor-trading"@,
            seq![("interval"@, interval.wire_name())]
                + super::optional_entry("count"@, super::opt_decimal(count))
                + super::optional_entry("until"@, super::opt_str(until)),
            false,
        ),
        r.body is Empty,
{
    let mut query = entry("interval", owned(interval.as_str()));
    push_opt(&mut query, "count", count_text(count));
    push_opt(&mut query, "until", str_text(until));
    request(
        HttpMethod::Get,
        concat3("/api/v1/market-indicators/", symbol, "/investor-trading"),
        query,
        false,
    )
}

} // verus!
