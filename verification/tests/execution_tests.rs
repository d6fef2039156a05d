use robo_trading::error::TradingError;
use robo_trading::execution::{
    client_order_id, fill_step, fill_timeout_error, find_asset, retry_decision, FillStep, RetryDecision,
};
use robo_trading::types::OrderStatus;

#[test]
fn client_order_ids_carry_prefix_and_differ_by_time() {
    let id1 = client_order_id(1700000000000);
    let id2 = client_order_id(1700000000010);
    assert_eq!(id1, "robo_1700000000000");
    assert_ne!(id1, id2);
    assert!(id1.starts_with("robo_"));
    assert_eq!(client_order_id(0), "robo_0");
}

#[test]
fn retry_backs_off_exponentially_until_the_limit() {
    assert_eq!(retry_decision(1, 3), RetryDecision::RetryAfter(1));
    assert_eq!(retry_decision(2, 3), RetryDecision::RetryAfter(2));
    assert_eq!(retry_decision(3, 3), RetryDecision::GiveUp);
    assert_eq!(retry_decision(4, 5), RetryDecision::RetryAfter(8));
    assert_eq!(retry_decision(64, 100), RetryDecision::RetryAfter(1u64 << 63));
}

#[test]
fn a_single_try_when_the_limit_is_zero_or_one() {
    assert_eq!(retry_decision(1, 0), RetryDecision::GiveUp);
    assert_eq!(retry_decision(1, 1), RetryDecision::GiveUp);
}

#[test]
fn a_failing_request_is_tried_exactly_the_limit() {
    for max in 1u32..10 {
        let mut attempts = 0u32;
        loop {
            attempts += 1;
            match retry_decision(attempts, max) {
                RetryDecision::GiveUp => break,
                RetryDecision::RetryAfter(w) => assert_eq!(w, 1u64 << (attempts - 1)),
            }
        }
        assert_eq!(attempts, max);
    }
}

#[test]
fn fill_progress_follows_order_state() {
    assert!(matches!(fill_step(OrderStatus::Filled), FillStep::Done));
    assert!(matches!(fill_step(OrderStatus::New), FillStep::KeepWaiting));
    assert!(matches!(fill_step(OrderStatus::PartiallyFilled), FillStep::KeepWaiting));
    assert!(matches!(fill_step(OrderStatus::PendingCancel), FillStep::KeepWaiting));
    for (status, text) in [
        (OrderStatus::Canceled, "Order failed: Canceled"),
        (OrderStatus::Rejected, "Order failed: Rejected"),
        (OrderStatus::Expired, "Order failed: Expired"),
    ] {
        match fill_step(status) {
            FillStep::Fail(TradingError::OrderError(m)) => assert_eq!(m, text),
            other => panic!("unexpected {:?}", other),
        }
    }
    match fill_timeout_error() {
        TradingError::OrderError(m) => assert_eq!(m, "Order fill timeout"),
        other => panic!("unexpected {:?}", other),
    }
}

#[test]
fn finds_the_first_balance_of_an_asset() {
    let assets: Vec<String> = ["BTC", "USDT", "BTC"].iter().map(|s| s.to_string()).collect();
    assert_eq!(find_asset(&assets, "BTC").unwrap(), 0);
    assert_eq!(find_asset(&assets, "USDT").unwrap(), 1);
    match find_asset(&assets, "ETH") {
        Err(TradingError::ApiError(m)) => assert_eq!(m, "Asset ETH not found in account"),
        other => panic!("unexpected {:?}", other),
    }
    assert!(find_asset(&Vec::new(), "BTC").is_err());
}
