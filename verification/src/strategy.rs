//! Trading signals and the rules that turn a signal into opening or
//! closing a position. (The indicators that produce the signals work on
//! floating-point prices and are computed by the program.)

use vstd::prelude::*;
use crate::types::{OrderSide, opposite_side};

verus! {

/// What the strategy advises.
#[derive(Debug, Clone, Copy, PartialEq, Eq, Structural)]
pub enum Signal {
    Long,
    Short,
    Neutral,
    CloseLong,
    CloseShort,
}

/// The side a signal opens a position on, if it opens one.
pub open spec fn entry_side_spec(signal: Signal) -> Option<OrderSide> {
    match signal {
        Signal::Long => Some(OrderSide::Buy),
        Signal::Short => Some(OrderSide::Sell),
        _ => None,
    }
}

/// Whether a signal closes a position held on `side`: a long (buy)
/// position closes on a short or close-long signal, a short (sell)
/// position on a long or close-short signal.
pub open spec fn closes_position_spec(side: OrderSide, signal: Signal) -> bool {
    match (side, signal) {
        (OrderSide::Buy, Signal::Short) => true,
        (OrderSide::Buy, Signal::CloseLong) => true,
        (OrderSide::Sell, Signal::Long) => true,
        (OrderSide::Sell, Signal::CloseShort) => true,
        _ => false,
    }
}

/// The side a signal opens a position on: buy on a long signal, sell on
/// a short one, none otherwise.
pub fn entry_side(signal: Signal) -> (r: Option<OrderSide>)
    ensures
        r == entry_side_spec(signal),
{
    match signal {
        Signal::Long => Some(OrderSide::Buy),
        Signal::Short => Some(OrderSide::Sell),
        _ => None,
    }
}

/// Whether `signal` tells to close a position held on `side`.
pub fn closes_position(side: OrderSide, signal: Signal) -> (r: bool)
    ensures
        r == closes_position_spec(side, signal),
{
    match (side, signal) {
        (OrderSide::Buy, Signal::Short) => true,
        (OrderSide::Buy, Signal::CloseLong) => true,
        (OrderSide::Sell, Signal::Long) => true,
        (OrderSide::Sell, Signal::CloseShort) => true,
        _ => false,
    }
}

/// A position is never closed by the signal that opens it, is always
/// closed by the signal that opens the other side, and a neutral signal
/// neither opens nor closes anything.
pub proof fn lemma_signal_consistency(side: OrderSide, signal: Signal)
    ensures
        entry_side_spec(signal) == Some(side) ==> !closes_position_spec(side, signal),
        entry_side_spec(signal) == Some(opposite_side(side)) ==> closes_position_spec(side, signal),
        signal == Signal::Neutral ==> entry_side_spec(signal) is None && !closes_position_spec(
            side,
            signal,
        ),
{
}

} // verus!
