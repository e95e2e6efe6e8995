use tossinvest_sdk::adapter::config::ClientConfig;
use tossinvest_sdk::adapter::{account, conditional_order, market_data, push_opt, trading};
use tossinvest_sdk::adapter::{ApiRequest, HttpMethod, RequestBody};
use tossinvest_sdk::domain::models::{
    CandleInterval, ConditionRequest, ConditionalOrderCreateRequest, ConditionalOrderModifyRequest,
    ConditionalOrderType, Currency, MarketCountry, OrderCreateRequest, OrderListStatus, OrderModifyRequest,
    OrderSide, OrderType, RankingDuration, RankingType,
};
use tossinvest_sdk::error::SdkError;
use tossinvest_sdk::text::{i64_to_text, join_strs, u64_to_text};

fn query(req: &ApiRequest) -> Vec<(&'static str, &str)> {
    req.query.iter().map(|(k, v)| (*k, v.as_str())).collect()
}

#[test]
fn push_opt_appends_only_present_values() {
    let mut q: Vec<(&'static str, String)> = vec![("symbol", "005930".to_string())];
    push_opt(&mut q, "count", None);
    assert_eq!(q.len(), 1);
    push_opt(&mut q, "count", Some("5".to_string()));
    assert_eq!(q, vec![("symbol", "005930".to_string()), ("count", "5".to_string())]);
}

#[test]
fn decimal_rendering_matches_to_string() {
    for n in [0u64, 7, 10, 99, 100, 123456, u64::MAX] {
        assert_eq!(u64_to_text(n), n.to_string());
    }
    for n in [0i64, -1, 123456, -987, i64::MIN, i64::MAX] {
        assert_eq!(i64_to_text(n), n.to_string());
    }
    assert_eq!(join_strs(&["005930", "005935"], ","), "005930,005935");
    assert_eq!(join_strs(&[], ","), "");
    assert_eq!(join_strs(&["a"], ","), "a");
}

#[test]
fn orderbook_request() {
    let req = market_data::get_orderbook("005930");
    assert_eq!(req.method, HttpMethod::Get);
    assert_eq!(req.path, "/api/v1/orderbook");
    assert_eq!(query(&req), vec![("symbol", "005930")]);
    assert!(!req.needs_account);
}

#[test]
fn prices_request_joins_symbols() {
    let req = market_data::get_prices(&["005930", "005935"]);
    assert_eq!(req.path, "/api/v1/prices");
    assert_eq!(query(&req), vec![("symbols", "005930,005935")]);
    let req = market_data::get_stocks(&["005930"]);
    assert_eq!(req.path, "/api/v1/stocks");
    assert_eq!(query(&req), vec![("symbols", "005930")]);
    let req = market_data::get_market_indicator_prices(&["KOSPI", "KOSDAQ"]);
    assert_eq!(req.path, "/api/v1/market-indicators/prices");
    assert_eq!(query(&req), vec![("symbols", "KOSPI,KOSDAQ")]);
}

#[test]
fn candles_request_builds_query_params() {
    let req = market_data::get_candles("005930", CandleInterval::OneDay, Some(5), None, Some(true));
    assert_eq!(req.path, "/api/v1/candles");
    assert_eq!(
        query(&req),
        vec![("symbol", "005930"), ("interval", "1d"), ("count", "5"), ("adjusted", "true")]
    );
    let req = market_data::get_candles("005930", CandleInterval::OneMinute, None, Some("2026-07-10"), Some(false));
    assert_eq!(
        query(&req),
        vec![("symbol", "005930"), ("interval", "1m"), ("before", "2026-07-10"), ("adjusted", "false")]
    );
}

#[test]
fn trades_and_price_limit_requests() {
    let req = market_data::get_trades("005930", None);
    assert_eq!(req.path, "/api/v1/trades");
    assert_eq!(query(&req), vec![("symbol", "005930")]);
    let req = market_data::get_trades("005930", Some(50));
    assert_eq!(query(&req), vec![("symbol", "005930"), ("count", "50")]);
    let req = market_data::get_price_limit("005930");
    assert_eq!(req.path, "/api/v1/price-limits");
    assert_eq!(query(&req), vec![("symbol", "005930")]);
}

#[test]
fn stock_warnings_uses_path_param() {
    let req = market_data::get_stock_warnings("005930");
    assert_eq!(req.path, "/api/v1/stocks/005930/warnings");
    assert!(req.query.is_empty());
}

#[test]
fn exchange_rate_and_calendar_requests() {
    let req = market_data::get_exchange_rate(Some("2026-07-23T10:00:00+09:00"), Currency::Usd, Currency::Krw);
    assert_eq!(req.path, "/api/v1/exchange-rate");
    assert_eq!(
        query(&req),
        vec![("baseCurrency", "USD"), ("quoteCurrency", "KRW"), ("dateTime", "2026-07-23T10:00:00+09:00")]
    );
    let req = market_data::get_kr_market_calendar(None);
    assert_eq!(req.path, "/api/v1/market-calendar/KR");
    assert!(req.query.is_empty());
    let req = market_data::get_us_market_calendar(Some("2026-07-23"));
    assert_eq!(req.path, "/api/v1/market-calendar/US");
    assert_eq!(query(&req), vec![("date", "2026-07-23")]);
}

#[test]
fn rankings_request_builds_enum_query() {
    let req = market_data::get_rankings(RankingType::TopGainers, MarketCountry::Kr, RankingDuration::OneDay, None, None);
    assert_eq!(req.path, "/api/v1/rankings");
    assert_eq!(query(&req), vec![("type", "TOP_GAINERS"), ("marketCountry", "KR"), ("duration", "1d")]);
    let req = market_data::get_rankings(
        RankingType::TossSecuritiesTradingVolume,
        MarketCountry::Us,
        RankingDuration::SixMonths,
        Some(true),
        Some(20),
    );
    assert_eq!(
        query(&req),
        vec![
            ("type", "TOSS_SECURITIES_TRADING_VOLUME"),
            ("marketCountry", "US"),
            ("duration", "6mo"),
            ("excludeInvestmentCaution", "true"),
            ("count", "20")
        ]
    );
}

#[test]
fn market_indicator_requests() {
    let req = market_data::get_market_indicator_candles("KOSPI", CandleInterval::OneDay, Some(3), Some("2026-07-01"));
    assert_eq!(req.path, "/api/v1/market-indicators/KOSPI/candles");
    assert_eq!(query(&req), vec![("interval", "1d"), ("count", "3"), ("before", "2026-07-01")]);
    let req = market_data::get_market_indicator_investor_trading("KOSPI", CandleInterval::OneDay, None, Some("2026-07-01"));
    assert_eq!(req.path, "/api/v1/market-indicators/KOSPI/investor-trading");
    assert_eq!(query(&req), vec![("interval", "1d"), ("until", "2026-07-01")]);
    assert!(!req.needs_account);
}

#[test]
fn account_requests() {
    let req = account::get_accounts();
    assert_eq!(req.path, "/api/v1/accounts");
    assert!(!req.needs_account);
    let req = account::get_holdings(None);
    assert_eq!(req.path, "/api/v1/holdings");
    assert!(req.query.is_empty());
    assert!(req.needs_account);
    let req = account::get_holdings(Some("005930"));
    assert_eq!(query(&req), vec![("symbol", "005930")]);
}

#[test]
fn orders_request_builds_query() {
    let req = trading::get_orders(OrderListStatus::Open, Some("005930"), None, None, None, Some(10));
    assert_eq!(req.method, HttpMethod::Get);
    assert_eq!(req.path, "/api/v1/orders");
    assert_eq!(query(&req), vec![("status", "OPEN"), ("symbol", "005930"), ("limit", "10")]);
    assert!(req.needs_account);
    let req = trading::get_orders(OrderListStatus::Closed, None, Some("2026-07-01"), Some("2026-07-31"), Some("cursor-2"), None);
    assert_eq!(
        query(&req),
        vec![("status", "CLOSED"), ("from", "2026-07-01"), ("to", "2026-07-31"), ("cursor", "cursor-2")]
    );
}

#[test]
fn order_requests_carry_bodies() {
    let order = OrderCreateRequest::amount_based("005930", OrderSide::Buy, "1000000");
    let req = trading::create_order(order);
    assert_eq!(req.method, HttpMethod::Post);
    assert_eq!(req.path, "/api/v1/orders");
    assert!(req.needs_account);
    match req.body {
        RequestBody::CreateOrder(o) => assert_eq!(o.order_amount.as_deref(), Some("1000000")),
        other => panic!("unexpected body {other:?}"),
    }
    let req = trading::modify_order("ord-1", OrderModifyRequest::new(OrderType::Limit, "5", "71000", true));
    assert_eq!(req.path, "/api/v1/orders/ord-1/modify");
    assert!(matches!(req.body, RequestBody::ModifyOrder(_)));
    let req = trading::cancel_order("ord-1");
    assert_eq!(req.method, HttpMethod::Post);
    assert_eq!(req.path, "/api/v1/orders/ord-1/cancel");
    assert!(matches!(req.body, RequestBody::Empty));
    let req = trading::get_order("ord-1");
    assert_eq!(req.path, "/api/v1/orders/ord-1");
}

#[test]
fn buying_power_and_other_trading_requests() {
    let req = trading::get_buying_power(Currency::Usd);
    assert_eq!(req.path, "/api/v1/buying-power");
    assert_eq!(query(&req), vec![("currency", "USD")]);
    let req = trading::get_sellable_quantity("005930");
    assert_eq!(req.path, "/api/v1/sellable-quantity");
    assert_eq!(query(&req), vec![("symbol", "005930")]);
    let req = trading::get_commissions();
    assert_eq!(req.path, "/api/v1/commissions");
    assert!(req.needs_account);
}

#[test]
fn conditional_order_requests() {
    let create = ConditionalOrderCreateRequest::new(
        "005930",
        ConditionalOrderType::Oco,
        "10",
        OrderType::Limit,
        "2026-12-31",
        ConditionRequest::new(OrderSide::Buy, "70000", "70100"),
    )
    .second(ConditionRequest::new(OrderSide::Buy, "65000", "65100"));
    let req = conditional_order::create_conditional_order(create);
    assert_eq!(req.path, "/api/v1/conditional-orders");
    assert!(req.needs_account);
    match req.body {
        RequestBody::CreateConditionalOrder(c) => {
            assert_eq!(c.conditional_type, ConditionalOrderType::Oco);
            assert_eq!(c.second.expect("second condition").trigger_price, "65000");
        }
        other => panic!("unexpected body {other:?}"),
    }
    let req = conditional_order::get_conditional_orders(OrderListStatus::Open, None, Some("c"), Some(5));
    assert_eq!(query(&req), vec![("status", "OPEN"), ("cursor", "c"), ("limit", "5")]);
    let req = conditional_order::get_conditional_order("co-1");
    assert_eq!(req.path, "/api/v1/conditional-orders/co-1");
    let req = conditional_order::cancel_conditional_order("co-1");
    assert_eq!(req.method, HttpMethod::Delete);
    assert_eq!(req.path, "/api/v1/conditional-orders/co-1");
    let modify = ConditionalOrderModifyRequest::new(
        ConditionalOrderType::Single,
        "3",
        OrderType::Market,
        "2026-12-31",
        ConditionRequest::new(OrderSide::Sell, "64000", "64100"),
    );
    let req = conditional_order::modify_conditional_order("co-1", modify);
    assert_eq!(req.method, HttpMethod::Post);
    assert_eq!(req.path, "/api/v1/conditional-orders/co-1/modify");
    assert!(matches!(req.body, RequestBody::ModifyConditionalOrder(_)));
}

#[test]
fn config_base_url_and_account() {
    let config = ClientConfig::new();
    assert_eq!(config.url("/api/v1/prices"), "https://openapi.tossinvest.com/api/v1/prices");
    let config = config.with_base_url("http://127.0.0.1:1234");
    assert_eq!(config.url("/oauth2/token"), "http://127.0.0.1:1234/oauth2/token");
    assert!(matches!(config.account_seq(false), Ok(None)));
    match config.account_seq(true) {
        Err(SdkError::Unknown(m)) => assert_eq!(m, "account_seq not set; call with_account()"),
        other => panic!("expected Unknown, got {other:?}"),
    }
    let config = config.with_account(123456);
    assert!(matches!(config.account_seq(true), Ok(Some(123456))));
    assert!(matches!(config.account_seq(false), Ok(None)));
    assert_eq!(config.account_header(true).unwrap().as_deref(), Some("123456"));
    assert_eq!(config.account_header(false).unwrap(), None);
    assert_eq!(config.url("/x"), "http://127.0.0.1:1234/x");
}
