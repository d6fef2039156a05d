use robo_trading::backtest::{consecutive_streaks, exit_decision, outcome_counts, ExitReason, TradeOutcome};
use robo_trading::strategy::{closes_position, entry_side, Signal};
use robo_trading::types::OrderSide;

#[test]
fn signals_open_positions_on_their_side() {
    assert_eq!(entry_side(Signal::Long), Some(OrderSide::Buy));
    assert_eq!(entry_side(Signal::Short), Some(OrderSide::Sell));
    assert_eq!(entry_side(Signal::Neutral), None);
    assert_eq!(entry_side(Signal::CloseLong), None);
    assert_eq!(entry_side(Signal::CloseShort), None);
}

#[test]
fn signals_close_the_other_side() {
    assert!(closes_position(OrderSide::Buy, Signal::Short));
    assert!(closes_position(OrderSide::Buy, Signal::CloseLong));
    assert!(!closes_position(OrderSide::Buy, Signal::Long));
    assert!(!closes_position(OrderSide::Buy, Signal::CloseShort));
    assert!(!closes_position(OrderSide::Buy, Signal::Neutral));
    assert!(closes_position(OrderSide::Sell, Signal::Long));
    assert!(closes_position(OrderSide::Sell, Signal::CloseShort));
    assert!(!closes_position(OrderSide::Sell, Signal::Short));
    assert!(!closes_position(OrderSide::Sell, Signal::CloseLong));
    assert!(!closes_position(OrderSide::Sell, Signal::Neutral));
}

#[test]
fn exits_check_stop_then_target_then_strategy() {
    assert_eq!(exit_decision(true, true, true), Some(ExitReason::StopLoss));
    assert_eq!(exit_decision(false, true, true), Some(ExitReason::TakeProfit));
    assert_eq!(exit_decision(false, false, true), Some(ExitReason::StrategySignal));
    assert_eq!(exit_decision(false, false, false), None);
    assert_eq!(ExitReason::StopLoss.label(), "Stop Loss");
    assert_eq!(ExitReason::TakeProfit.label(), "Take Profit");
    assert_eq!(ExitReason::StrategySignal.label(), "Strategy Signal");
    assert_eq!(ExitReason::EndOfBacktest.label(), "End of Backtest");
}

#[test]
fn counts_and_streaks_of_trades() {
    let (w, l, f) = (TradeOutcome::Win, TradeOutcome::Loss, TradeOutcome::Flat);
    let trades = vec![w, w, l, f, l, w, w, w, l];
    assert_eq!(outcome_counts(&trades), (5, 3));
    // flat trades break winning streaks and extend losing ones
    assert_eq!(consecutive_streaks(&trades), (3, 3));
    assert_eq!(consecutive_streaks(&Vec::new()), (0, 0));
    assert_eq!(outcome_counts(&Vec::new()), (0, 0));
    assert_eq!(consecutive_streaks(&vec![l, l]), (0, 2));
    assert_eq!(consecutive_streaks(&vec![w]), (1, 0));
}
