//! The vocabulary of orders and market data: order kinds, sides and
//! states, and candle timeframes.

use vstd::prelude::*;
use vstd::string::*;
use crate::text::text_eq;

verus! {

/// Kinds of order the exchange accepts.
#[derive(Debug, Clone, Copy, PartialEq, Eq, Structural)]
pub enum OrderType {
    Market,
    Limit,
    StopLoss,
    StopLossLimit,
    TakeProfit,
    TakeProfitLimit,
}

/// The side of an order or position.
#[derive(Debug, Clone, Copy, PartialEq, Eq, Structural)]
pub enum OrderSide {
    Buy,
    Sell,
}

/// The life-cycle state of an order on the exchange.
#[derive(Debug, Clone, Copy, PartialEq, Eq, Structural)]
pub enum OrderStatus {
    New,
    PartiallyFilled,
    Filled,
    Canceled,
    PendingCancel,
    Rejected,
    Expired,
}

/// The length of one candle.
#[derive(Debug, Clone, Copy, PartialEq, Eq, Structural)]
pub enum Timeframe {
    M1,
    M5,
    M15,
    H1,
    H4,
    D1,
}

/// The length of a timeframe in seconds.
pub open spec fn timeframe_seconds(t: Timeframe) -> int {
    match t {
        Timeframe::M1 => 60,
        Timeframe::M5 => 300,
        Timeframe::M15 => 900,
        Timeframe::H1 => 3600,
        Timeframe::H4 => 14400,
        Timeframe::D1 => 86400,
    }
}

/// The interval label the exchange uses for a timeframe.
pub open spec fn timeframe_label(t: Timeframe) -> Seq<char> {
    match t {
        Timeframe::M1 => "1m"@,
        Timeframe::M5 => "5m"@,
        Timeframe::M15 => "15m"@,
        Timeframe::H1 => "1h"@,
        Timeframe::H4 => "4h"@,
        Timeframe::D1 => "1d"@,
    }
}

impl Timeframe {
    /// The length of this timeframe in seconds.
    pub fn to_seconds(&self) -> (r: i64)
        ensures
            r == timeframe_seconds(*self),
    {
        match self {
            Timeframe::M1 => 60,
            Timeframe::M5 => 300,
            Timeframe::M15 => 900,
            Timeframe::H1 => 3600,
            Timeframe::H4 => 14400,
            Timeframe::D1 => 86400,
        }
    }

    /// The interval label of this timeframe ("1m", "5m", "15m", "1h", "4h", "1d").
    pub fn label(&self) -> (r: &'static str)
        ensures
            r@ == timeframe_label(*self),
    {
        match self {
            Timeframe::M1 => "1m",
            Timeframe::M5 => "5m",
            Timeframe::M15 => "15m",
            Timeframe::H1 => "1h",
            Timeframe::H4 => "4h",
            Timeframe::D1 => "1d",
        }
    }
}

/// The other side.
pub open spec fn opposite_side(s: OrderSide) -> OrderSide {
    match s {
        OrderSide::Buy => OrderSide::Sell,
        OrderSide::Sell => OrderSide::Buy,
    }
}

/// The name of a side in order requests.
pub open spec fn side_name(s: OrderSide) -> Seq<char> {
    match s {
        OrderSide::Buy => "BUY"@,
        OrderSide::Sell => "SELL"@,
    }
}

/// The name of an order kind in order requests: the exchange's names
/// `MARKET`, `LIMIT`, `STOP_LOSS`, `STOP_LOSS_LIMIT`, `TAKE_PROFIT` and
/// `TAKE_PROFIT_LIMIT`.
pub open spec fn order_type_name(t: OrderType) -> Seq<char> {
    match t {
        OrderType::Market => "MARKET"@,
        OrderType::Limit => "LIMIT"@,
        OrderType::StopLoss => "STOP_LOSS"@,
        OrderType::StopLossLimit => "STOP_LOSS_LIMIT"@,
        OrderType::TakeProfit => "TAKE_PROFIT"@,
        OrderType::TakeProfitLimit => "TAKE_PROFIT_LIMIT"@,
    }
}

/// The variant name of an order state, as diagnostics print it.
pub open spec fn status_name(s: OrderStatus) -> Seq<char> {
    match s {
        OrderStatus::New => "New"@,
        OrderStatus::PartiallyFilled => "PartiallyFilled"@,
        OrderStatus::Filled => "Filled"@,
        OrderStatus::Canceled => "Canceled"@,
        OrderStatus::PendingCancel => "PendingCancel"@,
        OrderStatus::Rejected => "Rejected"@,
        OrderStatus::Expired => "Expired"@,
    }
}

impl OrderSide {
    /// The side that closes a position opened on this side.
    pub fn opposite(&self) -> (r: OrderSide)
        ensures
            r == opposite_side(*self),
    {
        match self {
            OrderSide::Buy => OrderSide::Sell,
            OrderSide::Sell => OrderSide::Buy,
        }
    }

    /// The name of this side in order requests ("BUY" or "SELL").
    pub fn api_name(&self) -> (r: &'static str)
        ensures
            r@ == side_name(*self),
    {
        match self {
            OrderSide::Buy => "BUY",
            OrderSide::Sell => "SELL",
        }
    }
}

impl OrderType {
    /// The exchange's name of this order kind in order requests.
    pub fn api_name(&self) -> (r: &'static str)
        ensures
            r@ == order_type_name(*self),
    {
        match self {
            OrderType::Market => "MARKET",
            OrderType::Limit => "LIMIT",
            OrderType::StopLoss => "STOP_LOSS",
            OrderType::StopLossLimit => "STOP_LOSS_LIMIT",
            OrderType::TakeProfit => "TAKE_PROFIT",
            OrderType::TakeProfitLimit => "TAKE_PROFIT_LIMIT",
        }
    }
}

impl OrderStatus {
    /// The variant name of this state ("New", "Filled", ...).
    pub fn name(&self) -> (r: &'static str)
        ensures
            r@ == status_name(*self),
    {
        match self {
            OrderStatus::New => "New",
            OrderStatus::PartiallyFilled => "PartiallyFilled",
            OrderStatus::Filled => "Filled",
            OrderStatus::Canceled => "Canceled",
            OrderStatus::PendingCancel => "PendingCancel",
            OrderStatus::Rejected => "Rejected",
            OrderStatus::Expired => "Expired",
        }
    }
}

/// The name of an order state in the exchange's replies.
pub open spec fn exchange_status_name(s: OrderStatus) -> Seq<char> {
    match s {
        OrderStatus::New => "NEW"@,
        OrderStatus::PartiallyFilled => "PARTIALLY_FILLED"@,
        OrderStatus::Filled => "FILLED"@,
        OrderStatus::Canceled => "CANCELED"@,
        OrderStatus::PendingCancel => "PENDING_CANCEL"@,
        OrderStatus::Rejected => "REJECTED"@,
        OrderStatus::Expired => "EXPIRED"@,
    }
}

impl OrderSide {
    /// The side whose name in the exchange's messages is `name`
    /// ("BUY" or "SELL"), if any.
    pub fn from_api_name(name: &str) -> (r: Option<OrderSide>)
        ensures
            forall|s: OrderSide| r == Some(s) <==> side_name(s) == name@,
    {
        proof {
            reveal_strlit("BUY");
            assert("BUY"@.len() == 3);
            reveal_strlit("SELL");
            assert("SELL"@.len() == 4);
        }
        if text_eq(name, "BUY") {
            Some(OrderSide::Buy)
        } else if text_eq(name, "SELL") {
            Some(OrderSide::Sell)
        } else {
            None
        }
    }
}

impl OrderType {
    /// The order kind whose name in the exchange's messages is `name`, if any.
    pub fn from_api_name(name: &str) -> (r: Option<OrderType>)
        ensures
            forall|t: OrderType| r == Some(t) <==> order_type_name(t) == name@,
    {
        proof {
            reveal_strlit("MARKET");
            assert("MARKET"@.len() == 6);
            reveal_strlit("LIMIT");
            assert("LIMIT"@.len() == 5);
            reveal_strlit("STOP_LOSS");
            assert("STOP_LOSS"@.len() == 9);
            reveal_strlit("STOP_LOSS_LIMIT");
            assert("STOP_LOSS_LIMIT"@.len() == 15);
            reveal_strlit("TAKE_PROFIT");
            assert("TAKE_PROFIT"@.len() == 11);
            reveal_strlit("TAKE_PROFIT_LIMIT");
            assert("TAKE_PROFIT_LIMIT"@.len() == 17);
        }
        if text_eq(name, "MARKET") {
            Some(OrderType::Market)
        } else if text_eq(name, "LIMIT") {
            Some(OrderType::Limit)
        } else if text_eq(name, "STOP_LOSS") {
            Some(OrderType::StopLoss)
        } else if text_eq(name, "STOP_LOSS_LIMIT") {
            Some(OrderType::StopLossLimit)
        } else if text_eq(name, "TAKE_PROFIT") {
            Some(OrderType::TakeProfit)
        } else if text_eq(name, "TAKE_PROFIT_LIMIT") {
            Some(OrderType::TakeProfitLimit)
        } else {
            None
        }
    }
}

impl OrderStatus {
    /// The order state whose name in the exchange's replies is `name`
    /// ("NEW", "PARTIALLY_FILLED", "FILLED", "CANCELED", "PENDING_CANCEL",
    /// "REJECTED", "EXPIRED"), if any.
    pub fn from_exchange_name(name: &str) -> (r: Option<OrderStatus>)
        ensures
            forall|s: OrderStatus| r == Some(s) <==> exchange_status_name(s) == name@,
    {
        proof {
            reveal_strlit("NEW");
            assert("NEW"@.len() == 3);
            reveal_strlit("PARTIALLY_FILLED");
            assert("PARTIALLY_FILLED"@.len() == 16);
            reveal_strlit("FILLED");
            assert("FILLED"@.len() == 6);
            reveal_strlit("CANCELED");
            assert("CANCELED"@.len() == 8);
            assert("CANCELED"@[0] == 'C');
            reveal_strlit("PENDING_CANCEL");
            assert("PENDING_CANCEL"@.len() == 14);
            reveal_strlit("REJECTED");
            assert("REJECTED"@.len() == 8);
            assert("REJECTED"@[0] == 'R');
            reveal_strlit("EXPIRED");
            assert("EXPIRED"@.len() == 7);
        }
        if text_eq(name, "NEW") {
            Some(OrderStatus::New)
        } else if text_eq(name, "PARTIALLY_FILLED") {
            Some(OrderStatus::PartiallyFilled)
        } else if text_eq(name, "FILLED") {
            Some(OrderStatus::Filled)
        } else if text_eq(name, "CANCELED") {
            Some(OrderStatus::Canceled)
        } else if text_eq(name, "PENDING_CANCEL") {
            Some(OrderStatus::PendingCancel)
        } else if text_eq(name, "REJECTED") {
            Some(OrderStatus::Rejected)
        } else if text_eq(name, "EXPIRED") {
            Some(OrderStatus::Expired)
        } else {
            None
        }
    }
}

/// The exchange's names tell sides, order kinds and order states apart:
/// a name read back gives the value it was written from.
pub proof fn lemma_exchange_names_distinct(
    a: OrderSide,
    b: OrderSide,
    t: OrderType,
    u: OrderType,
    s: OrderStatus,
    v: OrderStatus,
)
    ensures
        side_name(a) == side_name(b) ==> a == b,
        order_type_name(t) == order_type_name(u) ==> t == u,
        exchange_status_name(s) == exchange_status_name(v) ==> s == v,
{
    reveal_strlit("BUY");
    assert("BUY"@.len() == 3);
    reveal_strlit("SELL");
    assert("SELL"@.len() == 4);
    reveal_strlit("MARKET");
    assert("MARKET"@.len() == 6);
    reveal_strlit("LIMIT");
    assert("LIMIT"@.len() == 5);
    reveal_strlit("STOP_LOSS");
    assert("STOP_LOSS"@.len() == 9);
    reveal_strlit("STOP_LOSS_LIMIT");
    assert("STOP_LOSS_LIMIT"@.len() == 15);
    reveal_strlit("TAKE_PROFIT");
    assert("TAKE_PROFIT"@.len() == 11);
    reveal_strlit("TAKE_PROFIT_LIMIT");
    assert("TAKE_PROFIT_LIMIT"@.len() == 17);
    reveal_strlit("NEW");
    assert("NEW"@.len() == 3);
    reveal_strlit("PARTIALLY_FILLED");
    assert("PARTIALLY_FILLED"@.len() == 16);
    reveal_strlit("FILLED");
    assert("FILLED"@.len() == 6);
    reveal_strlit("CANCELED");
    assert("CANCELED"@.len() == 8);
    assert("CANCELED"@[0] == 'C');
    reveal_strlit("PENDING_CANCEL");
    assert("PENDING_CANCEL"@.len() == 14);
    reveal_strlit("REJECTED");
    assert("REJECTED"@.len() == 8);
    assert("REJECTED"@[0] == 'R');
    reveal_strlit("EXPIRED");
    assert("EXPIRED"@.len() == 7);
}

/// Closing a position twice over returns to the side it was opened on.
pub proof fn lemma_opposite_involutive(s: OrderSide)
    ensures
        opposite_side(opposite_side(s)) == s,
        opposite_side(s) != s,
{
}

} // verus!
