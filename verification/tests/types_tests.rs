use robo_trading::types::{OrderSide, OrderStatus, OrderType, Timeframe};

#[test]
fn timeframe_seconds_match_their_lengths() {
    assert_eq!(Timeframe::M1.to_seconds(), 60);
    assert_eq!(Timeframe::M5.to_seconds(), 300);
    assert_eq!(Timeframe::M15.to_seconds(), 900);
    assert_eq!(Timeframe::H1.to_seconds(), 3600);
    assert_eq!(Timeframe::H4.to_seconds(), 14400);
    assert_eq!(Timeframe::D1.to_seconds(), 86400);
}

#[test]
fn timeframe_labels_are_exchange_intervals() {
    assert_eq!(Timeframe::M1.label(), "1m");
    assert_eq!(Timeframe::M5.label(), "5m");
    assert_eq!(Timeframe::M15.label(), "15m");
    assert_eq!(Timeframe::H1.label(), "1h");
    assert_eq!(Timeframe::H4.label(), "4h");
    assert_eq!(Timeframe::D1.label(), "1d");
}

#[test]
fn order_names_are_the_exchange_names() {
    assert_eq!(OrderSide::Buy.api_name(), "BUY");
    assert_eq!(OrderSide::Sell.api_name(), "SELL");
    assert_eq!(OrderType::Market.api_name(), "MARKET");
    assert_eq!(OrderType::Limit.api_name(), "LIMIT");
    assert_eq!(OrderType::StopLoss.api_name(), "STOP_LOSS");
    assert_eq!(OrderType::StopLossLimit.api_name(), "STOP_LOSS_LIMIT");
    assert_eq!(OrderType::TakeProfit.api_name(), "TAKE_PROFIT");
    assert_eq!(OrderType::TakeProfitLimit.api_name(), "TAKE_PROFIT_LIMIT");
}

#[test]
fn opposite_side_is_an_involution() {
    assert_eq!(OrderSide::Buy.opposite(), OrderSide::Sell);
    assert_eq!(OrderSide::Sell.opposite(), OrderSide::Buy);
    assert_eq!(OrderSide::Buy.opposite().opposite(), OrderSide::Buy);
    assert_eq!(OrderSide::Sell.opposite().opposite(), OrderSide::Sell);
}

#[test]
fn status_names_are_variant_names() {
    assert_eq!(OrderStatus::New.name(), "New");
    assert_eq!(OrderStatus::PartiallyFilled.name(), "PartiallyFilled");
    assert_eq!(OrderStatus::Filled.name(), "Filled");
    assert_eq!(OrderStatus::Canceled.name(), "Canceled");
    assert_eq!(OrderStatus::PendingCancel.name(), "PendingCancel");
    assert_eq!(OrderStatus::Rejected.name(), "Rejected");
    assert_eq!(OrderStatus::Expired.name(), "Expired");
}

#[test]
fn exchange_names_read_back() {
    assert_eq!(OrderSide::from_api_name("BUY"), Some(OrderSide::Buy));
    assert_eq!(OrderSide::from_api_name("SELL"), Some(OrderSide::Sell));
    assert_eq!(OrderSide::from_api_name("buy"), None);
    for t in [
        OrderType::Market,
        OrderType::Limit,
        OrderType::StopLoss,
        OrderType::StopLossLimit,
        OrderType::TakeProfit,
        OrderType::TakeProfitLimit,
    ] {
        assert_eq!(OrderType::from_api_name(t.api_name()), Some(t));
    }
    assert_eq!(OrderType::from_api_name("STOPLOSS"), None);
    assert_eq!(OrderStatus::from_exchange_name("NEW"), Some(OrderStatus::New));
    assert_eq!(OrderStatus::from_exchange_name("PARTIALLY_FILLED"), Some(OrderStatus::PartiallyFilled));
    assert_eq!(OrderStatus::from_exchange_name("FILLED"), Some(OrderStatus::Filled));
    assert_eq!(OrderStatus::from_exchange_name("CANCELED"), Some(OrderStatus::Canceled));
    assert_eq!(OrderStatus::from_exchange_name("PENDING_CANCEL"), Some(OrderStatus::PendingCancel));
    assert_eq!(OrderStatus::from_exchange_name("REJECTED"), Some(OrderStatus::Rejected));
    assert_eq!(OrderStatus::from_exchange_name("EXPIRED"), Some(OrderStatus::Expired));
    assert_eq!(OrderStatus::from_exchange_name("Filled"), None);
}
