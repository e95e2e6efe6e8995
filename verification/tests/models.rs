use tossinvest_sdk::domain::models::{
    CandleInterval, ConditionRequest, ConditionalOrderCreateRequest, ConditionalOrderModifyRequest,
    ConditionalOrderType, Currency, MarketCountry, OrderCreateRequest, OrderListStatus, OrderModifyRequest,
    OrderSide, OrderType, RankingDuration, RankingType, TimeInForce,
};

#[test]
fn enum_wire_names() {
    assert_eq!(Currency::Krw.as_str(), "KRW");
    assert_eq!(Currency::Usd.as_str(), "USD");
    assert_eq!(MarketCountry::Kr.as_str(), "KR");
    assert_eq!(MarketCountry::Us.as_str(), "US");
    assert_eq!(OrderListStatus::Open.as_str(), "OPEN");
    assert_eq!(OrderListStatus::Closed.as_str(), "CLOSED");
    assert_eq!(CandleInterval::OneMinute.as_str(), "1m");
    assert_eq!(CandleInterval::OneDay.as_str(), "1d");
    assert_eq!(RankingType::MarketTradingAmount.as_str(), "MARKET_TRADING_AMOUNT");
    assert_eq!(RankingType::MarketTradingVolume.as_str(), "MARKET_TRADING_VOLUME");
    assert_eq!(RankingType::TopGainers.as_str(), "TOP_GAINERS");
    assert_eq!(RankingType::TopLosers.as_str(), "TOP_LOSERS");
    assert_eq!(RankingType::TossSecuritiesTradingAmount.as_str(), "TOSS_SECURITIES_TRADING_AMOUNT");
    assert_eq!(RankingType::TossSecuritiesTradingVolume.as_str(), "TOSS_SECURITIES_TRADING_VOLUME");
    assert_eq!(RankingDuration::Realtime.as_str(), "realtime");
    assert_eq!(RankingDuration::OneDay.as_str(), "1d");
    assert_eq!(RankingDuration::OneWeek.as_str(), "1w");
    assert_eq!(RankingDuration::OneMonth.as_str(), "1mo");
    assert_eq!(RankingDuration::ThreeMonths.as_str(), "3mo");
    assert_eq!(RankingDuration::SixMonths.as_str(), "6mo");
    assert_eq!(RankingDuration::OneYear.as_str(), "1y");
}

#[test]
fn amount_based_order_is_market_without_quantity() {
    let req = OrderCreateRequest::amount_based("005930", OrderSide::Buy, "1000000");
    assert_eq!(req.symbol, "005930");
    assert_eq!(req.side, OrderSide::Buy);
    assert_eq!(req.order_type, OrderType::Market);
    assert_eq!(req.order_amount.as_deref(), Some("1000000"));
    assert!(req.quantity.is_none());
    assert!(req.price.is_none());
    assert!(req.time_in_force.is_none());
    assert!(req.client_order_id.is_none());
    assert!(req.confirm_high_value_order.is_none());
}

#[test]
fn quantity_based_order_with_optional_fields() {
    let req = OrderCreateRequest::quantity_based("005930", OrderSide::Sell, OrderType::Limit, "10")
        .price("70000")
        .time_in_force(TimeInForce::Day)
        .client_order_id("my-id")
        .confirm_high_value_order(true);
    assert_eq!(req.side, OrderSide::Sell);
    assert_eq!(req.order_type, OrderType::Limit);
    assert_eq!(req.quantity.as_deref(), Some("10"));
    assert_eq!(req.price.as_deref(), Some("70000"));
    assert_eq!(req.time_in_force, Some(TimeInForce::Day));
    assert_eq!(req.client_order_id.as_deref(), Some("my-id"));
    assert_eq!(req.confirm_high_value_order, Some(true));
    assert!(req.order_amount.is_none());
}

#[test]
fn modify_request_fields() {
    let req = OrderModifyRequest::new(OrderType::Limit, "5", "71000", true);
    assert_eq!(req.order_type, OrderType::Limit);
    assert_eq!(req.quantity, "5");
    assert_eq!(req.price, "71000");
    assert!(req.confirm_high_value_order);
}

#[test]
fn conditional_order_builders() {
    let first = ConditionRequest::new(OrderSide::Buy, "65000", "65100");
    assert_eq!(first.trigger_price, "65000");
    assert_eq!(first.order_price, "65100");
    let req = ConditionalOrderCreateRequest::new("005930", ConditionalOrderType::Oto, "10", OrderType::Limit, "2026-12-31", first);
    assert!(req.second.is_none());
    assert!(req.client_order_id.is_none());
    assert!(req.confirm_high_value_order.is_none());
    let req = req
        .second(ConditionRequest::new(OrderSide::Sell, "77000", "77100"))
        .client_order_id("c-1")
        .confirm_high_value_order(false);
    assert_eq!(req.symbol, "005930");
    assert_eq!(req.quantity, "10");
    assert_eq!(req.expire_date, "2026-12-31");
    assert_eq!(req.first.trigger_price, "65000");
    assert_eq!(req.second.as_ref().map(|c| c.order_side), Some(OrderSide::Sell));
    assert_eq!(req.client_order_id.as_deref(), Some("c-1"));
    assert_eq!(req.confirm_high_value_order, Some(false));

    let modify = ConditionalOrderModifyRequest::new(
        ConditionalOrderType::Oco,
        "10",
        OrderType::Limit,
        "2026-12-31",
        ConditionRequest::new(OrderSide::Buy, "64000", "64100"),
    )
    .second(ConditionRequest::new(OrderSide::Buy, "78000", "78100"))
    .confirm_high_value_order(true);
    assert_eq!(modify.conditional_type, ConditionalOrderType::Oco);
    assert_eq!(modify.second.as_ref().map(|c| c.trigger_price.as_str()), Some("78000"));
    assert_eq!(modify.confirm_high_value_order, Some(true));
}
