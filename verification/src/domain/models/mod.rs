//! Data models of the Toss Securities Open API, grouped by domain.

pub mod account;
pub mod calendar;
pub mod common;
pub mod conditional_order;
pub mod market;
pub mod market_indicator;
pub mod oauth;
pub mod order;
pub mod ranking;
pub mod trading;

pub use account::{Account, HoldingsOverview, OverviewMarketValue, OverviewProfitLoss, OverviewDailyProfitLoss, HoldingsItem, MarketValue, ProfitLoss, DailyProfitLoss, Cost};
pub use calendar::{KrMarketCalendarResponse, KrMarketDay, IntegratedHour, PreMarketSession, RegularMarketSession, AfterMarketSession, UsMarketCalendarResponse, UsMarketDay, UsDayMarketSession, UsPreMarketSession, UsRegularMarketSession, UsAfterMarketSession};
pub use common::{ApiResponse, Currency, MarketCountry, AccountType, OrderStatus, OrderSide, OrderType, TimeInForce, OrderListStatus, CandleInterval, RankingType, RankingDuration, Price};
pub use conditional_order::{ConditionalOrderType, ConditionalOrderStatus, ConditionalOrderLegStatus, ConditionalOrderLegType, ConditionRequest, ConditionalOrderCondition, ConditionalOrderCreateRequest, ConditionalOrderModifyRequest, ConditionalOrderCreateResponse, ConditionalOrderResponse, ConditionalOrderDetailResponse, PaginatedConditionalOrderResponse};
pub use market::{OrderbookResponse, OrderbookEntry, PriceResponse, Trade, Candle, CandlePageResponse, PriceLimitResponse, StockInfo, KrMarketDetail, StockWarning, ExchangeRateResponse};
pub use market_indicator::{MarketIndicatorPriceResponse, MarketIndicatorCandlePageResponse, MarketIndicatorCandle, InvestorTradingResponse, InvestorTradingRecord, InvestorTradingAmount, InstitutionTradingAmount, InstitutionTradingBreakdown};
pub use oauth::{OAuth2TokenResponse};
pub use order::{Order, OrderExecution, OrderResponse, OrderOperationResponse, OrderCreateRequest, OrderModifyRequest};
pub use ranking::{RankingResponse, RankingItem, RankingPrice};
pub use trading::{BuyingPowerResponse, Commission, SellableQuantityResponse, PaginatedOrderResponse};
