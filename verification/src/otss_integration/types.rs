//! Broker order, fill, account and position records.
use crate::decimal::Decimal;
use vstd::prelude::*;

verus! {

/// Order types a broker takes.
#[derive(Debug, Clone, Copy, PartialEq)]
pub enum BrokerOrderType {
    Market,
    Limit { price: Decimal },
    Stop { stop_price: Decimal },
    StopLimit { stop_price: Decimal, limit_price: Decimal },
}

/// Order sides a broker takes.
#[derive(Debug, Clone, Copy, PartialEq, Eq, Structural)]
pub enum BrokerOrderSide {
    Buy,
    Sell,
    SellShort,
}

/// How long an order stays working.
#[derive(Debug, Clone, Copy, PartialEq, Eq, Structural)]
pub enum TimeInForce {
    /// For the trading day.
    Day,
    /// Until cancelled.
    GTC,
    /// Immediate or cancel.
    IOC,
    /// Fill or kill.
    FOK,
}

/// An order to send to a broker.
#[derive(Debug, Clone)]
pub struct BrokerOrder {
    pub symbol: String,
    pub order_type: BrokerOrderType,
    pub side: BrokerOrderSide,
    pub quantity: u64,
    pub tif: TimeInForce,
}

/// The status of an order at the broker.
#[derive(Debug, Clone, PartialEq)]
pub enum BrokerOrderStatus {
    Pending,
    Submitted,
    PartiallyFilled,
    Filled,
    Cancelled,
    Rejected { reason: String },
}

impl BrokerOrderStatus {
    /// The display text: the upper-case name, and the reason of a rejection.
    pub open spec fn text(self) -> Seq<char> {
        match self {
            BrokerOrderStatus::Pending => "PENDING"@,
            BrokerOrderStatus::Submitted => "SUBMITTED"@,
            BrokerOrderStatus::PartiallyFilled => "PARTIALLY_FILLED"@,
            BrokerOrderStatus::Filled => "FILLED"@,
            BrokerOrderStatus::Cancelled => "CANCELLED"@,
            BrokerOrderStatus::Rejected { reason } => "REJECTED: "@ + reason@,
        }
    }

    /// The display text: the upper-case name, and the reason of a rejection.
    pub fn to_string(&self) -> (r: String)
        ensures
            r@ == self.text(),
    {
        proof {
            reveal_strlit("PENDING");
            reveal_strlit("SUBMITTED");
            reveal_strlit("PARTIALLY_FILLED");
            reveal_strlit("FILLED");
            reveal_strlit("CANCELLED");
            reveal_strlit("REJECTED: ");
        }
        match self {
            BrokerOrderStatus::Pending => String::from_str("PENDING"),
            BrokerOrderStatus::Submitted => String::from_str("SUBMITTED"),
            BrokerOrderStatus::PartiallyFilled => String::from_str("PARTIALLY_FILLED"),
            BrokerOrderStatus::Filled => String::from_str("FILLED"),
            BrokerOrderStatus::Cancelled => String::from_str("CANCELLED"),
            BrokerOrderStatus::Rejected { reason } => {
                let mut t = String::from_str("REJECTED: ");
                t.append(reason.as_str());
                t
            },
        }
    }
}

/// A fill reported by a broker.
#[derive(Debug, Clone)]
pub struct ExecutionFill {
    pub symbol: String,
    pub fill_id: String,
    pub quantity: u64,
    pub price: Decimal,
    pub side: BrokerOrderSide,
    pub timestamp: u64,
}

/// Account details reported by a broker.
#[derive(Debug, Clone)]
pub struct AccountInfo {
    pub account_id: String,
    pub account_type: AccountType,
    pub buying_power: Decimal,
    pub cash_balance: Decimal,
}

/// Kinds of broker account.
#[derive(Debug, Clone, Copy, PartialEq, Eq, Structural)]
pub enum AccountType {
    Cash,
    Margin,
}

/// A position reported by a broker (quantity positive long, negative short).
#[derive(Debug, Clone)]
pub struct BrokerPosition {
    pub symbol: String,
    pub quantity: i64,
    pub avg_cost: Decimal,
    pub market_price: Decimal,
    pub unrealized_pnl: Decimal,
}

} // verus!
