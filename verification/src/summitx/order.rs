//! Order-management types: identifiers, sides, time in force, the order
//! status machine, orders and fills.
use crate::decimal::{negative_one_spec, one_spec, product_ok, product_spec, Decimal};
use vstd::prelude::*;
use vstd::std_specs::cmp::PartialEqSpecImpl;
use vstd::std_specs::convert::FromSpecImpl;

verus! {

/// Unique order identifier.
#[derive(Debug, Clone, Hash)]
pub struct OrderId(pub String);

impl OrderId {
    /// An identifier with the given text.
    pub fn new(id: &str) -> (r: OrderId)
        ensures
            r.0@ == id@,
    {
        OrderId(String::from_str(id))
    }

    /// The identifier text.
    pub fn as_str(&self) -> (r: &str)
        ensures
            r@ == self.0@,
    {
        self.0.as_str()
    }

    /// The identifier text, by value.
    pub fn into_string(self) -> (r: String)
        ensures
            r == self.0,
    {
        self.0
    }
}

impl PartialEq for OrderId {
    fn eq(&self, other: &OrderId) -> (r: bool) {
        self.0 == other.0
    }
}

impl PartialEqSpecImpl for OrderId {
    open spec fn obeys_eq_spec() -> bool {
        true
    }

    open spec fn eq_spec(&self, other: &OrderId) -> bool {
        self.0@ == other.0@
    }
}

impl From<String> for OrderId {
    fn from(s: String) -> (r: OrderId) {
        OrderId(s)
    }
}

impl FromSpecImpl<String> for OrderId {
    open spec fn obeys_from_spec() -> bool {
        true
    }

    open spec fn from_spec(s: String) -> OrderId {
        OrderId(s)
    }
}

impl<'a> From<&'a str> for OrderId {
    fn from(s: &'a str) -> (r: OrderId)
        ensures
            r.0@ == s@,
    {
        OrderId(String::from_str(s))
    }
}

/// Conversion from text makes a fresh `String`, which no spec value names; the
/// view of the result is stated on `from` itself.
impl<'a> FromSpecImpl<&'a str> for OrderId {
    open spec fn obeys_from_spec() -> bool {
        false
    }

    open spec fn from_spec(s: &'a str) -> OrderId {
        arbitrary()
    }
}

/// Order side.
#[derive(Debug, Clone, Copy, PartialEq, Eq, Hash, Structural)]
pub enum OrderSide {
    /// Buy (long).
    Buy,
    /// Sell (short).
    Sell,
}

impl OrderSide {
    /// Whether this is a buy.
    pub fn is_buy(self) -> (r: bool)
        ensures
            r == (self == OrderSide::Buy),
    {
        match self {
            OrderSide::Buy => true,
            OrderSide::Sell => false,
        }
    }

    /// Whether this is a sell.
    pub fn is_sell(self) -> (r: bool)
        ensures
            r == (self == OrderSide::Sell),
    {
        match self {
            OrderSide::Buy => false,
            OrderSide::Sell => true,
        }
    }

    /// One for a buy, minus one for a sell.
    pub fn sign(self) -> (r: Decimal)
        ensures
            r == (if self == OrderSide::Buy {
                one_spec()
            } else {
                negative_one_spec()
            }),
    {
        match self {
            OrderSide::Buy => Decimal::one(),
            OrderSide::Sell => Decimal::negative_one(),
        }
    }
}

impl Default for OrderSide {
    fn default() -> (r: OrderSide)
        ensures
            r == OrderSide::Buy,
    {
        OrderSide::Buy
    }
}

/// Time in force.
#[derive(Debug, Clone, Copy, PartialEq, Eq, Hash, Structural)]
pub enum TimeInForce {
    /// Expires at the end of the trading day.
    Day,
    /// Good till cancelled.
    GTC,
    /// Immediate or cancel.
    IOC,
    /// Fill or kill.
    FOK,
}

impl TimeInForce {
    /// Whether partial fills are allowed (all but FOK).
    pub fn allows_partial(self) -> (r: bool)
        ensures
            r == (self != TimeInForce::FOK),
    {
        match self {
            TimeInForce::Day | TimeInForce::GTC | TimeInForce::IOC => true,
            TimeInForce::FOK => false,
        }
    }

    /// Whether the order must fill immediately (IOC and FOK).
    pub fn requires_immediate(self) -> (r: bool)
        ensures
            r == (self == TimeInForce::IOC || self == TimeInForce::FOK),
    {
        match self {
            TimeInForce::IOC | TimeInForce::FOK => true,
            _ => false,
        }
    }

    /// Whether the order persists across sessions (GTC).
    pub fn persists(self) -> (r: bool)
        ensures
            r == (self == TimeInForce::GTC),
    {
        match self {
            TimeInForce::GTC => true,
            _ => false,
        }
    }
}

impl Default for TimeInForce {
    fn default() -> (r: TimeInForce)
        ensures
            r == TimeInForce::Day,
    {
        TimeInForce::Day
    }
}

/// Order status: Pending → Submitted → [PartialFill] → [Filled | Cancelled | Rejected].
#[derive(Debug, Clone, Copy, PartialEq, Eq, Hash, Structural)]
pub enum OrderStatus {
    Pending,
    Submitted,
    PartialFill,
    Filled,
    Cancelled,
    Rejected,
}

impl OrderStatus {
    pub open spec fn terminal(self) -> bool {
        self == OrderStatus::Filled || self == OrderStatus::Cancelled || self == OrderStatus::Rejected
    }

    pub open spec fn open(self) -> bool {
        self == OrderStatus::Submitted || self == OrderStatus::PartialFill
    }

    pub open spec fn cancellable(self) -> bool {
        self == OrderStatus::Pending || self == OrderStatus::Submitted || self == OrderStatus::PartialFill
    }

    /// The transitions of the lifecycle.
    pub open spec fn allows(self, to: OrderStatus) -> bool {
        match self {
            OrderStatus::Pending => to == OrderStatus::Submitted || to == OrderStatus::Cancelled || to
                == OrderStatus::Rejected,
            OrderStatus::Submitted => to == OrderStatus::PartialFill || to == OrderStatus::Filled || to
                == OrderStatus::Cancelled || to == OrderStatus::Rejected,
            OrderStatus::PartialFill => to == OrderStatus::PartialFill || to == OrderStatus::Filled || to
                == OrderStatus::Cancelled,
            _ => false,
        }
    }

    /// The outcome of asking for a transition to `to`.
    pub open spec fn transition_result(self, to: OrderStatus) -> Result<OrderStatus, OrderStatusTransitionError> {
        if self.allows(to) {
            Ok(to)
        } else if self.terminal() {
            Err(OrderStatusTransitionError::TerminalState(self))
        } else {
            Err(OrderStatusTransitionError::InvalidTransition { from: self, to })
        }
    }

    /// Whether the status is terminal.
    pub fn is_terminal(self) -> (r: bool)
        ensures
            r == self.terminal(),
    {
        match self {
            OrderStatus::Filled | OrderStatus::Cancelled | OrderStatus::Rejected => true,
            _ => false,
        }
    }

    /// Whether the order is open (may receive fills).
    pub fn is_open(self) -> (r: bool)
        ensures
            r == self.open(),
    {
        match self {
            OrderStatus::Submitted | OrderStatus::PartialFill => true,
            _ => false,
        }
    }

    /// Whether the order can be cancelled.
    pub fn can_cancel(self) -> (r: bool)
        ensures
            r == self.cancellable(),
    {
        match self {
            OrderStatus::Pending | OrderStatus::Submitted | OrderStatus::PartialFill => true,
            _ => false,
        }
    }

    /// Moves to `to` when the lifecycle allows it; otherwise reports a
    /// terminal source status or an invalid transition.
    pub fn transition(self, to: OrderStatus) -> (r: Result<OrderStatus, OrderStatusTransitionError>)
        ensures
            r == self.transition_result(to),
    {
        match (self, to) {
            (OrderStatus::Pending, OrderStatus::Submitted) => Ok(to),
            (OrderStatus::Pending, OrderStatus::Cancelled) => Ok(to),
            (OrderStatus::Pending, OrderStatus::Rejected) => Ok(to),
            (OrderStatus::Submitted, OrderStatus::PartialFill) => Ok(to),
            (OrderStatus::Submitted, OrderStatus::Filled) => Ok(to),
            (OrderStatus::Submitted, OrderStatus::Cancelled) => Ok(to),
            (OrderStatus::Submitted, OrderStatus::Rejected) => Ok(to),
            (OrderStatus::PartialFill, OrderStatus::PartialFill) => Ok(to),
            (OrderStatus::PartialFill, OrderStatus::Filled) => Ok(to),
            (OrderStatus::PartialFill, OrderStatus::Cancelled) => Ok(to),
            (state, _) if state.is_terminal() => Err(OrderStatusTransitionError::TerminalState(state)),
            (from, to) => Err(OrderStatusTransitionError::InvalidTransition { from, to }),
        }
    }
}

impl OrderStatus {
    /// The lifecycle stage: pending, submitted, partly filled, finished.
    pub open spec fn stage(self) -> nat {
        match self {
            OrderStatus::Pending => 0,
            OrderStatus::Submitted => 1,
            OrderStatus::PartialFill => 2,
            _ => 3,
        }
    }
}

/// A terminal status is absorbing: every transition out of it is refused,
/// and the refusal names the terminal status.
pub proof fn lemma_status_terminal_absorbing(s: OrderStatus, t: OrderStatus)
    requires
        s.terminal(),
    ensures
        s.transition_result(t) == Err::<OrderStatus, OrderStatusTransitionError>(
            OrderStatusTransitionError::TerminalState(s),
        ),
{
}

/// A transition succeeds exactly when the lifecycle allows it, and then
/// gives the requested status.
pub proof fn lemma_status_transition_outcome(s: OrderStatus, t: OrderStatus)
    ensures
        s.transition_result(t) is Ok <==> s.allows(t),
        s.transition_result(t) is Ok ==> s.transition_result(t)->Ok_0 == t,
{
}

/// Every allowed transition moves the order forward in its lifecycle; only a
/// partly filled order may stay where it is.
pub proof fn lemma_status_transitions_advance(s: OrderStatus, t: OrderStatus)
    requires
        s.allows(t),
    ensures
        s.stage() < t.stage() || (s == OrderStatus::PartialFill && t == OrderStatus::PartialFill),
{
}

/// An order can be cancelled exactly when its status is not terminal, and is
/// open exactly when the lifecycle lets it move to `Filled`.
pub proof fn lemma_status_predicates(s: OrderStatus)
    ensures
        s.cancellable() <==> !s.terminal(),
        s.cancellable() <==> s.allows(OrderStatus::Cancelled),
        s.open() <==> s.allows(OrderStatus::Filled),
{
}

impl Default for OrderStatus {
    fn default() -> (r: OrderStatus)
        ensures
            r == OrderStatus::Pending,
    {
        OrderStatus::Pending
    }
}

/// Why a status transition was refused.
#[derive(Debug, Clone, PartialEq, Structural)]
pub enum OrderStatusTransitionError {
    /// The source status is terminal.
    TerminalState(OrderStatus),
    /// The lifecycle has no such transition.
    InvalidTransition { from: OrderStatus, to: OrderStatus },
}

/// A trading order.
#[derive(Debug, Clone)]
pub struct Order {
    /// Unique identifier.
    pub id: OrderId,
    /// Symbol (e.g. "BTC-USD").
    pub symbol: String,
    /// Side.
    pub side: OrderSide,
    /// Quantity (positive).
    pub quantity: Decimal,
    /// Limit price; `None` for a market order.
    pub price: Option<Decimal>,
    /// Time in force.
    pub tif: TimeInForce,
    /// Current status.
    pub status: OrderStatus,
}

impl Order {
    /// A pending day market order.
    pub fn new(id: &str, symbol: &str, side: OrderSide, quantity: Decimal) -> (r: Order)
        ensures
            r.id.0@ == id@,
            r.symbol@ == symbol@,
            r.side == side,
            r.quantity == quantity,
            r.price is None,
            r.tif == TimeInForce::Day,
            r.status == OrderStatus::Pending,
    {
        Order {
            id: OrderId::new(id),
            symbol: String::from_str(symbol),
            side,
            quantity,
            price: None,
            tif: TimeInForce::Day,
            status: OrderStatus::Pending,
        }
    }

    /// Sets the limit price.
    pub fn with_price(self, price: Decimal) -> (r: Order)
        ensures
            r == (Order { price: Some(price), ..self }),
    {
        let mut r = self;
        r.price = Some(price);
        r
    }

    /// Sets the time in force.
    pub fn with_tif(self, tif: TimeInForce) -> (r: Order)
        ensures
            r == (Order { tif, ..self }),
    {
        let mut r = self;
        r.tif = tif;
        r
    }

    /// Sets the status.
    pub fn with_status(self, status: OrderStatus) -> (r: Order)
        ensures
            r == (Order { status, ..self }),
    {
        let mut r = self;
        r.status = status;
        r
    }

    /// Whether the order has a limit price.
    pub fn is_limit(&self) -> (r: bool)
        ensures
            r == self.price is Some,
    {
        self.price.is_some()
    }

    /// Whether the order is a market order.
    pub fn is_market(&self) -> (r: bool)
        ensures
            r == self.price is None,
    {
        self.price.is_none()
    }

    /// Moves to `new_status` when the lifecycle allows it; otherwise leaves the
    /// order unchanged and reports why.
    pub fn transition_status(&mut self, new_status: OrderStatus) -> (r: Result<(), OrderStatusTransitionError>)
        ensures
            r is Ok <==> old(self).status.allows(new_status),
            r is Ok ==> *final(self) == (Order { status: new_status, ..*old(self) }),
            r is Err ==> *final(self) == *old(self) && r->Err_0 == old(self).status.transition_result(
                new_status,
            )->Err_0,
    {
        self.status = self.status.transition(new_status)?;
        Ok(())
    }
}

/// A UTC instant: seconds since the Unix epoch and the nanoseconds within the second.
#[derive(Debug, Clone, Copy, PartialEq, Eq, Hash, Structural)]
pub struct UtcTimestamp {
    pub seconds: i64,
    pub nanos: u32,
}

/// `chrono::Utc::now()`, as seconds and nanoseconds. Which instant comes back
/// is the clock's; of every outcome the source shows that it is not before the
/// epoch (an earlier system time panics inside `now`, hence the seconds are
/// not negative) and that the nanoseconds are those of a `Duration`, below
/// one second.
#[verifier::external_body]
fn utc_now() -> (r: UtcTimestamp)
    ensures
        r.seconds >= 0,
        r.nanos < 1_000_000_000,
{
    let now = chrono::Utc::now();
    UtcTimestamp { seconds: now.timestamp(), nanos: now.timestamp_subsec_nanos() }
}

impl UtcTimestamp {
    /// The current instant: at or after the epoch, with fewer than a second's
    /// nanoseconds.
    pub fn now() -> (r: UtcTimestamp)
        ensures
            r.seconds >= 0,
            r.nanos < 1_000_000_000,
    {
        utc_now()
    }
}

/// An executed trade, partial or complete.
#[derive(Debug, Clone)]
pub struct Fill {
    /// The order this fill belongs to.
    pub order_id: OrderId,
    /// Exchange-assigned fill identifier.
    pub fill_id: String,
    /// Symbol traded.
    pub symbol: String,
    /// Quantity filled.
    pub quantity: Decimal,
    /// Price of the fill.
    pub price: Decimal,
    /// Time of the fill (UTC).
    pub timestamp: UtcTimestamp,
}

impl Fill {
    /// A fill stamped with the current time.
    pub fn new(order_id: &str, fill_id: &str, symbol: &str, quantity: Decimal, price: Decimal) -> (r: Fill)
        ensures
            r.order_id.0@ == order_id@,
            r.fill_id@ == fill_id@,
            r.symbol@ == symbol@,
            r.quantity == quantity,
            r.price == price,
    {
        Fill {
            order_id: OrderId::new(order_id),
            fill_id: String::from_str(fill_id),
            symbol: String::from_str(symbol),
            quantity,
            price,
            timestamp: UtcTimestamp::now(),
        }
    }

    /// A fill with the given time.
    pub fn with_timestamp(
        order_id: &str,
        fill_id: &str,
        symbol: &str,
        quantity: Decimal,
        price: Decimal,
        timestamp: UtcTimestamp,
    ) -> (r: Fill)
        ensures
            r.order_id.0@ == order_id@,
            r.fill_id@ == fill_id@,
            r.symbol@ == symbol@,
            r.quantity == quantity,
            r.price == price,
            r.timestamp == timestamp,
    {
        Fill {
            order_id: OrderId::new(order_id),
            fill_id: String::from_str(fill_id),
            symbol: String::from_str(symbol),
            quantity,
            price,
            timestamp,
        }
    }

    /// Notional value: `quantity * price`.
    pub fn notional(&self) -> (r: Decimal)
        requires
            product_ok(self.quantity, self.price),
        ensures
            r == product_spec(self.quantity, self.price),
    {
        self.quantity.times(self.price)
    }
}

} // verus!
