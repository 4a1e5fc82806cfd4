//! Orders: identifiers, sides, types, lifecycle states.
use crate::otss_core::types::{Price, Quantity, Symbol};
use crate::decimal::{difference_ok, difference_spec, zero_spec};
use vstd::prelude::*;

verus! {

/// Whether `c` is a lower-case hexadecimal digit.
pub open spec fn is_lower_hex(c: char) -> bool {
    ('0' <= c && c <= '9') || ('a' <= c && c <= 'f')
}

/// The shape of a hyphenated UUID: 36 characters, hyphens at 8, 13, 18 and
/// 23, lower-case hexadecimal digits elsewhere.
pub open spec fn is_hyphenated_uuid(t: Seq<char>) -> bool {
    &&& t.len() == 36
    &&& forall|i: int|
        0 <= i < 36 ==> if i == 8 || i == 13 || i == 18 || i == 23 {
            #[trigger] t[i] == '-'
        } else {
            is_lower_hex(t[i])
        }
}

/// `uuid::Uuid::new_v4().to_string()`: a random UUID in hyphenated lower-case
/// form; which UUID comes back is chance.
#[verifier::external_body]
pub(crate) fn new_uuid_text() -> (r: String)
    ensures
        is_hyphenated_uuid(r@),
{
    uuid::Uuid::new_v4().to_string()
}

/// Unique identifier for an order.
#[derive(Debug, Clone, Hash)]
pub struct OrderId(pub String);

impl OrderId {
    /// A fresh random identifier (a hyphenated UUID).
    pub fn new() -> (r: OrderId)
        ensures
            is_hyphenated_uuid(r.0@),
    {
        OrderId(new_uuid_text())
    }

    /// The identifier text.
    pub fn to_string(&self) -> (r: String)
        ensures
            r@ == self.0@,
    {
        self.0.clone()
    }

    /// An identifier with the given text; never fails.
    pub fn from_str(s: &str) -> (r: Result<OrderId, String>)
        ensures
            r is Ok,
            r->Ok_0.0@ == s@,
    {
        Ok(OrderId(String::from_str(s)))
    }
}

impl Default for OrderId {
    fn default() -> (r: OrderId)
        ensures
            is_hyphenated_uuid(r.0@),
    {
        OrderId::new()
    }
}

/// Order side.
#[derive(Debug, Clone, Copy, PartialEq, Eq, Structural)]
pub enum OrderSide {
    Buy,
    Sell,
}

impl OrderSide {
    /// "BUY" or "SELL".
    pub fn to_string(&self) -> (r: String)
        ensures
            r@ == (if *self == OrderSide::Buy {
                "BUY"@
            } else {
                "SELL"@
            }),
    {
        match self {
            OrderSide::Buy => String::from_str("BUY"),
            OrderSide::Sell => String::from_str("SELL"),
        }
    }
}

/// Order type.
#[derive(Debug, Clone, Copy, PartialEq)]
pub enum OrderType {
    Market,
    Limit(Price),
    Stop(Price),
    StopLimit { stop: Price, limit: Price },
}

/// Lifecycle state of an order.
#[derive(Debug, PartialEq)]
pub enum OrderState {
    /// Created, not yet submitted.
    Created,
    /// Submitted to the broker.
    Pending,
    /// Partly filled.
    PartiallyFilled,
    /// Fully filled.
    Filled,
    /// Cancelled.
    Cancelled,
    /// Rejected, with the reason.
    Rejected { reason: String },
}

impl OrderState {
    /// A copy of this state.
    fn duplicate(&self) -> (r: OrderState)
        ensures
            r == *self,
    {
        match self {
            OrderState::Created => OrderState::Created,
            OrderState::Pending => OrderState::Pending,
            OrderState::PartiallyFilled => OrderState::PartiallyFilled,
            OrderState::Filled => OrderState::Filled,
            OrderState::Cancelled => OrderState::Cancelled,
            OrderState::Rejected { reason } => OrderState::Rejected { reason: reason.clone() },
        }
    }

    /// The display text: the upper-case state name, and for a rejection its reason.
    pub fn to_string(&self) -> (r: String)
        ensures
            r@ == match *self {
                OrderState::Created => "CREATED"@,
                OrderState::Pending => "PENDING"@,
                OrderState::PartiallyFilled => "PARTIALLY_FILLED"@,
                OrderState::Filled => "FILLED"@,
                OrderState::Cancelled => "CANCELLED"@,
                OrderState::Rejected { reason } => "REJECTED: "@ + reason@,
            },
    {
        match self {
            OrderState::Created => String::from_str("CREATED"),
            OrderState::Pending => String::from_str("PENDING"),
            OrderState::PartiallyFilled => String::from_str("PARTIALLY_FILLED"),
            OrderState::Filled => String::from_str("FILLED"),
            OrderState::Cancelled => String::from_str("CANCELLED"),
            OrderState::Rejected { reason } => {
                let mut t = String::from_str("REJECTED: ");
                t.append(reason.as_str());
                t
            },
        }
    }
}

impl Clone for OrderState {
    fn clone(&self) -> (r: OrderState)
        ensures
            r == *self,
    {
        self.duplicate()
    }
}

/// Time in force.
#[derive(Debug, Clone, Copy, PartialEq, Eq, Structural)]
pub enum TimeInForce {
    /// Good till cancelled.
    GTC,
    /// Immediate or cancel.
    IOC,
    /// Fill or kill.
    FOK,
    /// Day order.
    DAY,
}

/// A trading order.
#[derive(Debug)]
pub struct Order {
    id: OrderId,
    symbol: Symbol,
    side: OrderSide,
    quantity: Quantity,
    order_type: OrderType,
    state: OrderState,
    tif: TimeInForce,
    filled_qty: Quantity,
    avg_fill_price: Option<Price>,
}

impl Order {
    pub closed spec fn id_spec(self) -> OrderId {
        self.id
    }

    pub closed spec fn symbol_spec(self) -> Symbol {
        self.symbol
    }

    pub closed spec fn side_spec(self) -> OrderSide {
        self.side
    }

    pub closed spec fn quantity_spec(self) -> Quantity {
        self.quantity
    }

    pub closed spec fn order_type_spec(self) -> OrderType {
        self.order_type
    }

    pub closed spec fn state_spec(self) -> OrderState {
        self.state
    }

    pub closed spec fn tif_spec(self) -> TimeInForce {
        self.tif
    }

    pub closed spec fn filled_spec(self) -> Quantity {
        self.filled_qty
    }

    pub closed spec fn avg_fill_price_spec(self) -> Option<Price> {
        self.avg_fill_price
    }

    /// A market order.
    pub fn market(symbol: Symbol, side: OrderSide, quantity: Quantity) -> (r: Order)
        ensures
            r.symbol_spec() == symbol,
            r.side_spec() == side,
            r.quantity_spec() == quantity,
            r.order_type_spec() == OrderType::Market,
            r.state_spec() == OrderState::Created,
            r.tif_spec() == TimeInForce::GTC,
            r.filled_spec().dec() == zero_spec(),
            r.avg_fill_price_spec() is None,
            is_hyphenated_uuid(r.id_spec().0@),
    {
        Order::new(symbol, side, quantity, OrderType::Market)
    }

    /// A limit order at `limit_price`.
    pub fn limit(symbol: Symbol, side: OrderSide, quantity: Quantity, limit_price: Price) -> (r: Order)
        ensures
            r.symbol_spec() == symbol,
            r.side_spec() == side,
            r.quantity_spec() == quantity,
            r.order_type_spec() == OrderType::Limit(limit_price),
            r.state_spec() == OrderState::Created,
            r.tif_spec() == TimeInForce::GTC,
            r.filled_spec().dec() == zero_spec(),
            r.avg_fill_price_spec() is None,
            is_hyphenated_uuid(r.id_spec().0@),
    {
        Order::new(symbol, side, quantity, OrderType::Limit(limit_price))
    }

    /// A new order: a fresh identifier, state Created, GTC, nothing filled.
    pub fn new(symbol: Symbol, side: OrderSide, quantity: Quantity, order_type: OrderType) -> (r: Order)
        ensures
            r.symbol_spec() == symbol,
            r.side_spec() == side,
            r.quantity_spec() == quantity,
            r.order_type_spec() == order_type,
            r.state_spec() == OrderState::Created,
            r.tif_spec() == TimeInForce::GTC,
            r.filled_spec().dec() == zero_spec(),
            r.avg_fill_price_spec() is None,
            is_hyphenated_uuid(r.id_spec().0@),
    {
        Order {
            id: OrderId::new(),
            symbol,
            side,
            quantity,
            order_type,
            state: OrderState::Created,
            tif: TimeInForce::GTC,
            filled_qty: Quantity::zero(),
            avg_fill_price: None,
        }
    }

    /// The identifier.
    pub fn id(&self) -> (r: &OrderId)
        ensures
            *r == self.id_spec(),
    {
        &self.id
    }

    /// The symbol.
    pub fn symbol(&self) -> (r: &Symbol)
        ensures
            *r == self.symbol_spec(),
    {
        &self.symbol
    }

    /// The side.
    pub fn side(&self) -> (r: OrderSide)
        ensures
            r == self.side_spec(),
    {
        self.side
    }

    /// The order quantity.
    pub fn quantity(&self) -> (r: Quantity)
        ensures
            r == self.quantity_spec(),
    {
        self.quantity
    }

    /// The order type.
    pub fn order_type(&self) -> (r: &OrderType)
        ensures
            *r == self.order_type_spec(),
    {
        &self.order_type
    }

    /// The current state.
    pub fn state(&self) -> (r: OrderState)
        ensures
            r == self.state_spec(),
    {
        self.state.duplicate()
    }

    /// Quantity still to fill: `quantity - filled`.
    pub fn remaining_qty(&self) -> (r: Quantity)
        requires
            difference_ok(self.quantity_spec().dec(), self.filled_spec().dec()),
        ensures
            r.dec() == difference_spec(self.quantity_spec().dec(), self.filled_spec().dec()),
    {
        self.quantity - self.filled_qty
    }

    /// Whether the order is active (pending or partly filled).
    pub fn is_active(&self) -> (r: bool)
        ensures
            r == (self.state_spec() is Pending || self.state_spec() is PartiallyFilled),
    {
        match self.state {
            OrderState::Pending | OrderState::PartiallyFilled => true,
            _ => false,
        }
    }

    /// Whether the order is complete (filled, cancelled or rejected).
    pub fn is_complete(&self) -> (r: bool)
        ensures
            r == (self.state_spec() is Filled || self.state_spec() is Cancelled || self.state_spec() is Rejected),
    {
        match self.state {
            OrderState::Filled | OrderState::Cancelled | OrderState::Rejected { .. } => true,
            _ => false,
        }
    }
}

} // verus!
