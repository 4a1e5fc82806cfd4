//! Domain types of the risk engine.
use crate::text::{debug_text, digits, str_debug, u64_text};
use crate::decimal::{
    abs_int, quotient_exact, representable_at, lemma_val_sign, lemma_pow10_positive, MAX_MANTISSA, difference_exact, lemma_abs_value, lemma_difference_exact, lemma_min_value,
    lemma_product_exact, lemma_sign_product, lemma_sum_exact, pow10, product_exact, sum_exact,
    abs_spec, decimal_text, difference_ok, difference_spec, min_spec, negative_one_spec, one_spec, product_ok,
    product_spec, quotient_ok, quotient_spec, sum_ok, sum_spec, zero_spec, Decimal,
};
use vstd::prelude::*;

verus! {

/// Symbol or trading pair identifier (e.g. "BTC-USD").
pub type Symbol = String;

/// Numeric order identifier.
pub type OrderId = u64;

/// Order side.
#[derive(Debug, Clone, Copy, PartialEq, Eq, Hash, Structural)]
pub enum Side {
    Buy,
    Sell,
}

impl Side {
    /// `+1` for a buy, `-1` for a sell.
    pub open spec fn sign_spec(self) -> Decimal {
        match self {
            Side::Buy => one_spec(),
            Side::Sell => negative_one_spec(),
        }
    }

    /// The signed unit of this side: one for a buy, minus one for a sell.
    pub fn sign(self) -> (r: Decimal)
        ensures
            r == self.sign_spec(),
    {
        match self {
            Side::Buy => Decimal::one(),
            Side::Sell => Decimal::negative_one(),
        }
    }

    /// Whether this is a buy.
    pub fn is_buy(self) -> (r: bool)
        ensures
            r == (self == Side::Buy),
    {
        match self {
            Side::Buy => true,
            Side::Sell => false,
        }
    }

    /// Whether this is a sell.
    pub fn is_sell(self) -> (r: bool)
        ensures
            r == (self == Side::Sell),
    {
        match self {
            Side::Buy => false,
            Side::Sell => true,
        }
    }
}

/// Order lifecycle states: Pending → Submitted → [PartialFill] → [Filled | Cancelled | Rejected].
#[derive(Debug, Clone, Copy, PartialEq, Eq, Hash, Structural)]
pub enum OrderState {
    /// Created, not yet submitted.
    Pending,
    /// Submitted to the exchange.
    Submitted,
    /// Partly filled; the rest is still open.
    PartialFill,
    /// Completely filled.
    Filled,
    /// Cancelled by the user or the system.
    Cancelled,
    /// Rejected by the exchange or the risk system.
    Rejected,
}

impl OrderState {
    pub open spec fn terminal(self) -> bool {
        self == OrderState::Filled || self == OrderState::Cancelled || self == OrderState::Rejected
    }

    pub open spec fn fillable(self) -> bool {
        self == OrderState::Submitted || self == OrderState::PartialFill
    }

    pub open spec fn cancellable(self) -> bool {
        self == OrderState::Pending || self == OrderState::Submitted || self == OrderState::PartialFill
    }

    /// The transitions of the lifecycle.
    pub open spec fn allows(self, to: OrderState) -> bool {
        match self {
            OrderState::Pending => to == OrderState::Submitted || to == OrderState::Cancelled || to
                == OrderState::Rejected,
            OrderState::Submitted => to == OrderState::PartialFill || to == OrderState::Filled || to
                == OrderState::Cancelled || to == OrderState::Rejected,
            OrderState::PartialFill => to == OrderState::PartialFill || to == OrderState::Filled || to
                == OrderState::Cancelled,
            _ => false,
        }
    }

    /// The outcome of asking for a transition to `to`.
    pub open spec fn transition_result(self, to: OrderState) -> Result<OrderState, StateTransitionError> {
        if self.allows(to) {
            Ok(to)
        } else if self.terminal() {
            Err(StateTransitionError::TerminalState(self))
        } else {
            Err(StateTransitionError::InvalidTransition { from: self, to })
        }
    }

    /// Whether the state is terminal (Filled, Cancelled or Rejected).
    pub fn is_terminal(self) -> (r: bool)
        ensures
            r == self.terminal(),
    {
        match self {
            OrderState::Filled | OrderState::Cancelled | OrderState::Rejected => true,
            _ => false,
        }
    }

    /// Whether the order can still receive fills.
    pub fn can_fill(self) -> (r: bool)
        ensures
            r == self.fillable(),
    {
        match self {
            OrderState::Submitted | OrderState::PartialFill => true,
            _ => false,
        }
    }

    /// Whether the order can be cancelled.
    pub fn can_cancel(self) -> (r: bool)
        ensures
            r == self.cancellable(),
    {
        match self {
            OrderState::Pending | OrderState::Submitted | OrderState::PartialFill => true,
            _ => false,
        }
    }

    /// Whether the order is active (submitted or partly filled).
    pub fn is_active(self) -> (r: bool)
        ensures
            r == self.fillable(),
    {
        match self {
            OrderState::Submitted | OrderState::PartialFill => true,
            _ => false,
        }
    }

    /// Moves to `new_state` when the lifecycle allows it; otherwise reports a
    /// terminal source state or an invalid transition.
    pub fn transition(self, new_state: OrderState) -> (r: Result<OrderState, StateTransitionError>)
        ensures
            r == self.transition_result(new_state),
    {
        match (self, new_state) {
            (OrderState::Pending, OrderState::Submitted) => Ok(new_state),
            (OrderState::Pending, OrderState::Cancelled) => Ok(new_state),
            (OrderState::Pending, OrderState::Rejected) => Ok(new_state),
            (OrderState::Submitted, OrderState::PartialFill) => Ok(new_state),
            (OrderState::Submitted, OrderState::Filled) => Ok(new_state),
            (OrderState::Submitted, OrderState::Cancelled) => Ok(new_state),
            (OrderState::Submitted, OrderState::Rejected) => Ok(new_state),
            (OrderState::PartialFill, OrderState::PartialFill) => Ok(new_state),
            (OrderState::PartialFill, OrderState::Filled) => Ok(new_state),
            (OrderState::PartialFill, OrderState::Cancelled) => Ok(new_state),
            (OrderState::Filled, _) | (OrderState::Cancelled, _) | (OrderState::Rejected, _) => Err(
                StateTransitionError::TerminalState(self),
            ),
            (from, to) => Err(StateTransitionError::InvalidTransition { from, to }),
        }
    }
}

impl OrderState {
    /// The lifecycle stage: pending, submitted, partly filled, finished.
    pub open spec fn stage(self) -> nat {
        match self {
            OrderState::Pending => 0,
            OrderState::Submitted => 1,
            OrderState::PartialFill => 2,
            _ => 3,
        }
    }
}

/// A terminal state is absorbing: every transition out of it is refused, and
/// the refusal names the terminal state.
pub proof fn lemma_terminal_absorbing(s: OrderState, t: OrderState)
    requires
        s.terminal(),
    ensures
        s.transition_result(t) == Err::<OrderState, StateTransitionError>(StateTransitionError::TerminalState(s)),
{
}

/// A transition succeeds exactly when the lifecycle allows it, and then
/// gives the requested state.
pub proof fn lemma_transition_outcome(s: OrderState, t: OrderState)
    ensures
        s.transition_result(t) is Ok <==> s.allows(t),
        s.transition_result(t) is Ok ==> s.transition_result(t)->Ok_0 == t,
{
}

/// Every allowed transition moves the order forward in its lifecycle; only a
/// partly filled order may stay where it is (another partial fill).
pub proof fn lemma_transitions_advance(s: OrderState, t: OrderState)
    requires
        s.allows(t),
    ensures
        s.stage() < t.stage() || (s == OrderState::PartialFill && t == OrderState::PartialFill),
{
}

/// An order can be cancelled exactly when it is not terminal, and can take
/// fills exactly when the lifecycle lets it move to `Filled`.
pub proof fn lemma_state_predicates(s: OrderState)
    ensures
        s.cancellable() <==> !s.terminal(),
        s.cancellable() <==> s.allows(OrderState::Cancelled),
        s.fillable() <==> s.allows(OrderState::Filled),
{
}

/// Why a state transition was refused.
#[derive(Debug, Clone, PartialEq, Structural)]
pub enum StateTransitionError {
    /// The source state is terminal.
    TerminalState(OrderState),
    /// The lifecycle has no such transition.
    InvalidTransition { from: OrderState, to: OrderState },
}

/// The debug name of a state.
pub open spec fn state_name(s: OrderState) -> Seq<char> {
    match s {
        OrderState::Pending => "Pending"@,
        OrderState::Submitted => "Submitted"@,
        OrderState::PartialFill => "PartialFill"@,
        OrderState::Filled => "Filled"@,
        OrderState::Cancelled => "Cancelled"@,
        OrderState::Rejected => "Rejected"@,
    }
}

impl StateTransitionError {
    /// The error message.
    pub fn message(&self) -> (r: String)
        ensures
            r@ == match *self {
                StateTransitionError::TerminalState(s) => "Cannot transition from terminal state: "@ + state_name(s),
                StateTransitionError::InvalidTransition { from, to } => "Invalid transition from "@ + state_name(from)
                    + " to "@ + state_name(to),
            },
    {
        proof {
            reveal_strlit("Cannot transition from terminal state: ");
            reveal_strlit("Invalid transition from ");
            reveal_strlit(" to ");
        }
        match self {
            StateTransitionError::TerminalState(s) => {
                let mut t = String::from_str("Cannot transition from terminal state: ");
                t.append(order_state_name(*s));
                t
            },
            StateTransitionError::InvalidTransition { from, to } => {
                let mut t = String::from_str("Invalid transition from ");
                t.append(order_state_name(*from));
                t.append(" to ");
                t.append(order_state_name(*to));
                t
            },
        }
    }
}

/// The debug name of a state.
pub fn order_state_name(s: OrderState) -> (r: &'static str)
    ensures
        r@ == state_name(s),
{
    proof {
        reveal_strlit("Pending");
        reveal_strlit("Submitted");
        reveal_strlit("PartialFill");
        reveal_strlit("Filled");
        reveal_strlit("Cancelled");
        reveal_strlit("Rejected");
    }
    match s {
        OrderState::Pending => "Pending",
        OrderState::Submitted => "Submitted",
        OrderState::PartialFill => "PartialFill",
        OrderState::Filled => "Filled",
        OrderState::Cancelled => "Cancelled",
        OrderState::Rejected => "Rejected",
    }
}

/// The numbers of a position, apart from its symbol.
#[derive(Debug, Clone, Copy)]
pub struct PositionState {
    pub quantity: Decimal,
    pub avg_price: Decimal,
    pub realized_pnl: Decimal,
    pub unrealized_pnl: Decimal,
    pub last_update_ns: u64,
}

impl PositionState {
    /// A flat position: all numbers zero.
    pub open spec fn flat() -> PositionState {
        PositionState {
            quantity: zero_spec(),
            avg_price: zero_spec(),
            realized_pnl: zero_spec(),
            unrealized_pnl: zero_spec(),
            last_update_ns: 0,
        }
    }

    /// Whether a fill on `side` reduces the position (sells a long or buys a short).
    pub open spec fn reduces(self, side: Side) -> bool {
        (self.quantity.val() > 0 && side == Side::Sell) || (self.quantity.val() < 0 && side == Side::Buy)
    }

    /// The signed fill: `qty * sign(side)`.
    pub open spec fn signed_fill(qty: Decimal, side: Side) -> Decimal {
        product_spec(qty, side.sign_spec())
    }

    /// The quantity after the fill.
    pub open spec fn quantity_after(self, qty: Decimal, side: Side) -> Decimal {
        sum_spec(self.quantity, PositionState::signed_fill(qty, side))
    }

    /// The quantity a reducing fill closes: `min(|qty|, |quantity|)`.
    pub open spec fn close_qty(self, qty: Decimal) -> Decimal {
        min_spec(abs_spec(qty), abs_spec(self.quantity))
    }

    /// Closed quantity at the average price.
    pub open spec fn entry_value(self, qty: Decimal) -> Decimal {
        product_spec(self.close_qty(qty), self.avg_price)
    }

    /// Closed quantity at the fill price.
    pub open spec fn exit_value(self, qty: Decimal, price: Decimal) -> Decimal {
        product_spec(self.close_qty(qty), price)
    }

    /// PnL a reducing fill realizes: exit minus entry for a long, entry minus exit for a short.
    pub open spec fn trade_pnl(self, qty: Decimal, price: Decimal) -> Decimal {
        if self.quantity.val() > 0 {
            difference_spec(self.exit_value(qty, price), self.entry_value(qty))
        } else {
            difference_spec(self.entry_value(qty), self.exit_value(qty, price))
        }
    }

    /// Realized PnL after the fill.
    pub open spec fn realized_after(self, qty: Decimal, price: Decimal, side: Side) -> Decimal {
        if self.reduces(side) {
            sum_spec(self.realized_pnl, self.trade_pnl(qty, price))
        } else {
            self.realized_pnl
        }
    }

    /// Current notional at the average price: `|quantity| * avg_price`.
    pub open spec fn current_notional(self) -> Decimal {
        product_spec(abs_spec(self.quantity), self.avg_price)
    }

    /// Fill notional: `|qty| * price`.
    pub open spec fn fill_notional(qty: Decimal, price: Decimal) -> Decimal {
        product_spec(abs_spec(qty), price)
    }

    /// Combined size: `|quantity| + |qty|`.
    pub open spec fn total_qty(self, qty: Decimal) -> Decimal {
        sum_spec(abs_spec(self.quantity), abs_spec(qty))
    }

    /// Volume-weighted average of the current position and the fill.
    pub open spec fn blended_avg(self, qty: Decimal, price: Decimal) -> Decimal {
        quotient_spec(
            sum_spec(self.current_notional(), PositionState::fill_notional(qty, price)),
            self.total_qty(qty),
        )
    }

    /// Whether the fill grows the absolute position.
    pub open spec fn grows(self, qty: Decimal, side: Side) -> bool {
        abs_spec(self.quantity_after(qty, side)).val() > abs_spec(self.quantity).val()
    }

    /// Whether the fill shrinks the absolute position.
    pub open spec fn shrinks(self, qty: Decimal, side: Side) -> bool {
        abs_spec(self.quantity_after(qty, side)).val() < abs_spec(self.quantity).val()
    }

    /// Whether the fill turns a long position short or a short one long.
    pub open spec fn flips(self, qty: Decimal, side: Side) -> bool {
        (self.quantity.val() > 0 && self.quantity_after(qty, side).val() < 0) || (self.quantity.val() < 0
            && self.quantity_after(qty, side).val() > 0)
    }

    /// Average price after the fill: zero when the position closes; the fill
    /// price when the position flips side (the new position opens at the fill
    /// price); the blended average when it grows on the same side; unchanged
    /// when it shrinks; the fill price when its size stays.
    pub open spec fn avg_after(self, qty: Decimal, price: Decimal, side: Side) -> Decimal {
        if self.quantity_after(qty, side).val() == 0 {
            zero_spec()
        } else if self.flips(qty, side) {
            price
        } else if self.grows(qty, side) {
            if self.total_qty(qty).val() > 0 {
                self.blended_avg(qty, price)
            } else {
                self.avg_price
            }
        } else if self.shrinks(qty, side) {
            self.avg_price
        } else {
            price
        }
    }

    /// The numbers after applying a fill.
    pub open spec fn after_fill(self, qty: Decimal, price: Decimal, side: Side, timestamp_ns: u64) -> PositionState {
        PositionState {
            quantity: self.quantity_after(qty, side),
            avg_price: self.avg_after(qty, price, side),
            realized_pnl: self.realized_after(qty, price, side),
            unrealized_pnl: self.unrealized_pnl,
            last_update_ns: timestamp_ns,
        }
    }

    /// The arithmetic of a fill stays within the decimal range.
    pub open spec fn fill_ok(self, qty: Decimal, price: Decimal, side: Side) -> bool {
        &&& sum_ok(self.quantity, PositionState::signed_fill(qty, side))
        &&& self.reduces(side) ==> {
            &&& product_ok(self.close_qty(qty), self.avg_price)
            &&& product_ok(self.close_qty(qty), price)
            &&& if self.quantity.val() > 0 {
                difference_ok(self.exit_value(qty, price), self.entry_value(qty))
            } else {
                difference_ok(self.entry_value(qty), self.exit_value(qty, price))
            }
            &&& sum_ok(self.realized_pnl, self.trade_pnl(qty, price))
        }
        &&& (self.quantity_after(qty, side).val() != 0 && !self.flips(qty, side) && self.grows(qty, side)) ==> {
            &&& product_ok(abs_spec(self.quantity), self.avg_price)
            &&& product_ok(abs_spec(qty), price)
            &&& sum_ok(abs_spec(self.quantity), abs_spec(qty))
            &&& sum_ok(self.current_notional(), PositionState::fill_notional(qty, price))
            &&& self.total_qty(qty).val() > 0 ==> quotient_ok(
                sum_spec(self.current_notional(), PositionState::fill_notional(qty, price)),
                self.total_qty(qty),
            )
        }
    }

    /// Unrealized PnL at `mark`: zero when flat; `quantity * (mark - avg)`
    /// when long; `|quantity| * (avg - mark)` when short.
    pub open spec fn unrealized_at(self, mark: Decimal) -> Decimal {
        if self.quantity.val() == 0 {
            zero_spec()
        } else if self.quantity.val() > 0 {
            product_spec(self.quantity, difference_spec(mark, self.avg_price))
        } else {
            product_spec(abs_spec(self.quantity), difference_spec(self.avg_price, mark))
        }
    }

    /// The arithmetic of marking at `mark` stays within the decimal range.
    pub open spec fn mark_ok(self, mark: Decimal) -> bool {
        &&& self.quantity.val() > 0 ==> difference_ok(mark, self.avg_price) && product_ok(
            self.quantity,
            difference_spec(mark, self.avg_price),
        )
        &&& self.quantity.val() < 0 ==> difference_ok(self.avg_price, mark) && product_ok(
            abs_spec(self.quantity),
            difference_spec(self.avg_price, mark),
        )
    }

    /// The numbers after marking at `mark`.
    pub open spec fn after_mark(self, mark: Decimal) -> PositionState {
        PositionState { unrealized_pnl: self.unrealized_at(mark), ..self }
    }
}

impl PositionState {
    /// The numbers of a reducing fill are computed without rounding.
    pub open spec fn reduce_exact(self, qty: Decimal, price: Decimal, side: Side) -> bool {
        &&& sum_exact(self.quantity, PositionState::signed_fill(qty, side))
        &&& product_exact(self.close_qty(qty), self.avg_price)
        &&& product_exact(self.close_qty(qty), price)
        &&& if self.quantity.val() > 0 {
            difference_exact(self.exit_value(qty, price), self.entry_value(qty))
        } else {
            difference_exact(self.entry_value(qty), self.exit_value(qty, price))
        }
        &&& sum_exact(self.realized_pnl, self.trade_pnl(qty, price))
    }
}

/// A fill against the position (a sell of a long, a buy of a short) moves
/// the quantity by the signed fill and realizes, on the part it closes, the
/// difference between fill price and average price per unit: `price - avg`
/// for a long, `avg - price` for a short. While the position only shrinks,
/// its average price stays. (Values in units of `10^-28`; where no rounding
/// occurs.)
pub proof fn lemma_reducing_fill(st: PositionState, qty: Decimal, price: Decimal, side: Side, timestamp_ns: u64)
    requires
        st.quantity.valid(),
        st.avg_price.valid(),
        st.realized_pnl.valid(),
        qty.valid(),
        price.valid(),
        qty.val() > 0,
        st.reduces(side),
        st.reduce_exact(qty, price, side),
    ensures
        ({
            let after = st.after_fill(qty, price, side, timestamp_ns);
            let closed = if qty.val() <= abs_int(st.quantity.val()) {
                qty.val()
            } else {
                abs_int(st.quantity.val())
            };
            &&& after.quantity.val() == st.quantity.val() + if side == Side::Buy {
                qty.val()
            } else {
                -qty.val()
            }
            &&& after.realized_pnl.val() * pow10(28) == st.realized_pnl.val() * pow10(28) + closed * if st.quantity.val()
                > 0 {
                price.val() - st.avg_price.val()
            } else {
                st.avg_price.val() - price.val()
            }
            &&& qty.val() < abs_int(st.quantity.val()) ==> after.avg_price == st.avg_price
        }),
{
    lemma_sign_product(qty, side == Side::Buy);
    let signed = PositionState::signed_fill(qty, side);
    lemma_sum_exact(st.quantity, signed);
    lemma_abs_value(qty);
    lemma_abs_value(st.quantity);
    lemma_min_value(abs_spec(qty), abs_spec(st.quantity));
    let close = st.close_qty(qty);
    lemma_product_exact(close, st.avg_price);
    lemma_product_exact(close, price);
    let entry = st.entry_value(qty);
    let exit = st.exit_value(qty, price);
    if st.quantity.val() > 0 {
        lemma_difference_exact(exit, entry);
    } else {
        lemma_difference_exact(entry, exit);
    }
    let trade = st.trade_pnl(qty, price);
    lemma_sum_exact(st.realized_pnl, trade);
    let p = pow10(28);
    let c = close.val();
    if st.quantity.val() > 0 {
        assert(trade.val() * p == c * price.val() - c * st.avg_price.val()) by (nonlinear_arith)
            requires
                trade.val() == exit.val() - entry.val(),
                exit.val() * p == c * price.val(),
                entry.val() * p == c * st.avg_price.val(),
        ;
        assert(c * price.val() - c * st.avg_price.val() == c * (price.val() - st.avg_price.val())) by (nonlinear_arith);
    } else {
        assert(trade.val() * p == c * st.avg_price.val() - c * price.val()) by (nonlinear_arith)
            requires
                trade.val() == entry.val() - exit.val(),
                exit.val() * p == c * price.val(),
                entry.val() * p == c * st.avg_price.val(),
        ;
        assert(c * st.avg_price.val() - c * price.val() == c * (st.avg_price.val() - price.val())) by (nonlinear_arith);
    }
    let r = sum_spec(st.realized_pnl, trade);
    assert(r.val() * p == st.realized_pnl.val() * p + trade.val() * p) by (nonlinear_arith)
        requires
            r.val() == st.realized_pnl.val() + trade.val(),
    ;
    lemma_abs_value(st.quantity_after(qty, side));
}

/// A fill on a flat position opens it: the quantity is the signed fill, the
/// position grows, the combined size is the fill's size, and the notional to
/// average is the fill's, whose exact quotient by the size is the fill price
/// (where the fill's notional is computed without rounding).
pub proof fn lemma_opening_fill(st: PositionState, qty: Decimal, price: Decimal, side: Side)
    requires
        st.quantity.valid(),
        st.avg_price.valid(),
        qty.valid(),
        price.valid(),
        st.quantity.val() == 0,
        qty.val() != 0,
        product_exact(abs_spec(qty), price),
    ensures
        ({
            let notional = sum_spec(st.current_notional(), PositionState::fill_notional(qty, price));
            &&& st.quantity_after(qty, side).val() != 0
            &&& !st.flips(qty, side)
            &&& st.grows(qty, side)
            &&& st.total_qty(qty).val() == abs_int(qty.val())
            &&& st.total_qty(qty).val() > 0
            &&& quotient_exact(notional, st.total_qty(qty))
            &&& notional.val() * pow10(28) == st.total_qty(qty).val() * price.val()
        }),
{
    lemma_val_sign(st.quantity);
    lemma_val_sign(qty);
    lemma_sign_product(qty, side == Side::Buy);
    lemma_abs_value(qty);
    lemma_abs_value(st.quantity);
    lemma_val_sign(abs_spec(st.quantity));
    let signed = PositionState::signed_fill(qty, side);
    lemma_val_sign(signed);
    assert(st.quantity_after(qty, side) == signed);
    lemma_abs_value(signed);
    let total = st.total_qty(qty);
    assert(total == abs_spec(qty));
    let fnl = PositionState::fill_notional(qty, price);
    lemma_product_exact(abs_spec(qty), price);
    assert(st.current_notional() == Decimal::mk(0, 0));
    let notional = sum_spec(st.current_notional(), fnl);
    Decimal::lemma_mk(0, 0);
    assert(notional == fnl);
    let p = pow10(28);
    let t = total.val();
    let pv = price.val();
    assert(notional.val() * p == t * pv);
    assert((notional.val() * p) % t == 0 && (notional.val() * p) / t == pv) by (nonlinear_arith)
        requires
            notional.val() * p == t * pv,
            t > 0,
    ;
    let s = price.s() as nat;
    lemma_pow10_positive((28 - s) as nat);
    let k = pow10((28 - s) as nat);
    let m = price.m() as int;
    assert(pv == m * k);
    assert(pv % k == 0 && pv / k == m) by (nonlinear_arith)
        requires
            pv == m * k,
            k > 0,
    ;
    assert(representable_at(pv, s));
}

/// Cancelling a non-zero factor.
pub proof fn lemma_cancel(x: int, y: int, t: int)
    ensures
        t != 0 && x * t == y * t ==> x == y,
{
    if t != 0 && x * t == y * t {
        assert((x - y) * t == 0) by (nonlinear_arith)
            requires
                x * t == y * t,
        ;
        assert(x - y == 0) by (nonlinear_arith)
            requires
                (x - y) * t == 0,
                t != 0,
        ;
    }
}

/// Position in one symbol.
#[derive(Debug, Clone)]
pub struct Position {
    /// Symbol of this position.
    pub symbol: Symbol,
    /// Net quantity (positive long, negative short).
    pub quantity: Decimal,
    /// Average entry price.
    pub avg_price: Decimal,
    /// Realized PnL of this symbol.
    pub realized_pnl: Decimal,
    /// Unrealized PnL at the last mark price.
    pub unrealized_pnl: Decimal,
    /// Timestamp of the last update.
    pub last_update_ns: u64,
}

impl Position {
    /// The numbers of this position.
    pub open spec fn state(self) -> PositionState {
        PositionState {
            quantity: self.quantity,
            avg_price: self.avg_price,
            realized_pnl: self.realized_pnl,
            unrealized_pnl: self.unrealized_pnl,
            last_update_ns: self.last_update_ns,
        }
    }

    /// A new flat position.
    pub fn new(symbol: &str) -> (r: Position)
        ensures
            r.symbol@ == symbol@,
            r.state() == PositionState::flat(),
    {
        Position {
            symbol: String::from_str(symbol),
            quantity: Decimal::zero(),
            avg_price: Decimal::zero(),
            realized_pnl: Decimal::zero(),
            unrealized_pnl: Decimal::zero(),
            last_update_ns: 0,
        }
    }

    /// Whether the quantity is zero.
    pub fn is_flat(&self) -> (r: bool)
        ensures
            r == (self.quantity.val() == 0),
    {
        self.quantity.is_zero()
    }

    /// Whether the quantity is positive.
    pub fn is_long(&self) -> (r: bool)
        ensures
            r == (self.quantity.val() > 0),
    {
        self.quantity.gt(&Decimal::zero())
    }

    /// Whether the quantity is negative.
    pub fn is_short(&self) -> (r: bool)
        ensures
            r == (self.quantity.val() < 0),
    {
        self.quantity.lt(&Decimal::zero())
    }

    /// The absolute position size.
    pub fn abs_quantity(&self) -> (r: Decimal)
        ensures
            r == abs_spec(self.quantity),
    {
        self.quantity.abs()
    }

    /// Notional value at `price`: `|quantity| * price`.
    pub fn notional_value(&self, price: &Decimal) -> (r: Decimal)
        requires
            product_ok(abs_spec(self.quantity), *price),
        ensures
            r == product_spec(abs_spec(self.quantity), *price),
    {
        self.quantity.abs().times(*price)
    }

    /// Applies a fill: updates quantity, average price and realized PnL.
    pub fn apply_fill(&mut self, fill_qty: &Decimal, fill_price: &Decimal, side: Side, timestamp_ns: u64)
        requires
            old(self).state().fill_ok(*fill_qty, *fill_price, side),
        ensures
            final(self).symbol == old(self).symbol,
            final(self).state() == old(self).state().after_fill(*fill_qty, *fill_price, side, timestamp_ns),
            ({
                let st = old(self).state();
                let notional = sum_spec(st.current_notional(), PositionState::fill_notional(*fill_qty, *fill_price));
                st.quantity_after(*fill_qty, side).val() != 0 && !st.flips(*fill_qty, side) && st.grows(*fill_qty, side)
                    && st.total_qty(*fill_qty).val() > 0 && quotient_exact(notional, st.total_qty(*fill_qty))
                    ==> final(self).avg_price.val() * st.total_qty(*fill_qty).val() == notional.val() * pow10(28)
            }),
            old(self).quantity.val() == 0 && fill_qty.val() != 0 && product_exact(abs_spec(*fill_qty), *fill_price)
                ==> final(self).avg_price.val() == fill_price.val(),
    {
        proof {
            use_type_invariant(fill_qty);
            use_type_invariant(fill_price);
            use_type_invariant(&self.quantity);
            use_type_invariant(&self.avg_price);
            crate::decimal::lemma_sign_product_ok(*fill_qty, side == Side::Buy);
            if self.quantity.val() == 0 && fill_qty.val() != 0 && product_exact(abs_spec(*fill_qty), *fill_price) {
                lemma_opening_fill(self.state(), *fill_qty, *fill_price, side);
            }
        }
        let signed_fill = fill_qty.times(side.sign());
        let new_quantity = self.quantity.plus(signed_fill);
        let current_qty_abs = self.quantity.abs();
        let fill_qty_abs = fill_qty.abs();
        let zero = Decimal::zero();
        if (self.quantity.gt(&zero) && side.is_sell()) || (self.quantity.lt(&zero) && side.is_buy()) {
            let close_qty = fill_qty_abs.min(current_qty_abs);
            let entry_value = close_qty.times(self.avg_price);
            let exit_value = close_qty.times(*fill_price);
            let trade_pnl = if self.quantity.gt(&zero) {
                exit_value.minus(entry_value)
            } else {
                entry_value.minus(exit_value)
            };
            self.realized_pnl = self.realized_pnl.plus(trade_pnl);
        }
        if new_quantity.is_zero() {
            self.avg_price = Decimal::zero();
        } else if (self.quantity.gt(&zero) && new_quantity.lt(&zero)) || (self.quantity.lt(&zero) && new_quantity.gt(
            &zero,
        )) {
            self.avg_price = *fill_price;
        } else if new_quantity.abs().gt(&self.quantity.abs()) {
            let current_notional = self.quantity.abs().times(self.avg_price);
            let fill_notional = fill_qty_abs.times(*fill_price);
            let total_qty = self.quantity.abs().plus(fill_qty_abs);
            if total_qty.gt(&zero) {
                let notional = current_notional.plus(fill_notional);
                self.avg_price = notional.over(total_qty);
                proof {
                    if old(self).quantity.val() == 0 && fill_qty.val() != 0 && product_exact(
                        abs_spec(*fill_qty),
                        *fill_price,
                    ) {
                        assert(quotient_exact(notional, total_qty));
                        assert(self.avg_price.val() * total_qty.val() == notional.val() * pow10(28));
                        assert(notional.val() * pow10(28) == total_qty.val() * fill_price.val());
                        assert(total_qty.val() * fill_price.val() == fill_price.val() * total_qty.val())
                            by (nonlinear_arith);
                        lemma_cancel(self.avg_price.val(), fill_price.val(), total_qty.val());
                        assert(self.avg_price.val() == fill_price.val());
                    }
                }
            }
        } else if new_quantity.abs().lt(&self.quantity.abs()) {
        } else {
            self.avg_price = *fill_price;
        }
        self.quantity = new_quantity;
        self.last_update_ns = timestamp_ns;
    }

    /// Updates unrealized PnL at the mark price.
    pub fn update_unrealized_pnl(&mut self, mark_price: &Decimal)
        requires
            old(self).state().mark_ok(*mark_price),
        ensures
            final(self).symbol == old(self).symbol,
            final(self).state() == old(self).state().after_mark(*mark_price),
    {
        if self.is_flat() {
            self.unrealized_pnl = Decimal::zero();
        } else if self.is_long() {
            self.unrealized_pnl = self.quantity.times(mark_price.minus(self.avg_price));
        } else {
            self.unrealized_pnl = self.quantity.abs().times(self.avg_price.minus(*mark_price));
        }
    }
}

/// Risk limit configuration.
#[derive(Debug, Clone, Copy)]
pub struct RiskLimit {
    /// Maximum absolute position per symbol.
    pub max_position: Decimal,
    /// Daily loss limit (a negative number, e.g. -5000).
    pub daily_loss_limit: Decimal,
    /// Maximum number of concurrent non-flat positions.
    pub max_concurrent_positions: Option<usize>,
    /// Maximum order size.
    pub max_order_size: Option<Decimal>,
    /// Maximum notional value per order.
    pub max_notional_per_order: Option<Decimal>,
}

impl RiskLimit {
    /// Limits with the two mandatory bounds and no optional ones.
    pub fn new(max_position: Decimal, daily_loss_limit: Decimal) -> (r: RiskLimit)
        ensures
            r.max_position == max_position,
            r.daily_loss_limit == daily_loss_limit,
            r.max_concurrent_positions is None,
            r.max_order_size is None,
            r.max_notional_per_order is None,
    {
        RiskLimit {
            max_position,
            daily_loss_limit,
            max_concurrent_positions: None,
            max_order_size: None,
            max_notional_per_order: None,
        }
    }

    /// Sets the maximum number of concurrent positions.
    pub fn with_max_concurrent_positions(self, max: usize) -> (r: RiskLimit)
        ensures
            r == (RiskLimit { max_concurrent_positions: Some(max), ..self }),
    {
        let mut r = self;
        r.max_concurrent_positions = Some(max);
        r
    }

    /// Sets the maximum order size.
    pub fn with_max_order_size(self, max: Decimal) -> (r: RiskLimit)
        ensures
            r == (RiskLimit { max_order_size: Some(max), ..self }),
    {
        let mut r = self;
        r.max_order_size = Some(max);
        r
    }

    /// Sets the maximum notional per order.
    pub fn with_max_notional(self, max: Decimal) -> (r: RiskLimit)
        ensures
            r == (RiskLimit { max_notional_per_order: Some(max), ..self }),
    {
        let mut r = self;
        r.max_notional_per_order = Some(max);
        r
    }
}

impl Default for RiskLimit {
    fn default() -> (r: RiskLimit)
        ensures
            r.max_position == Decimal::mk(1000, 0),
            r.daily_loss_limit == Decimal::mk(-5000i128, 0),
            r.max_concurrent_positions is None,
            r.max_order_size is None,
            r.max_notional_per_order is None,
    {
        RiskLimit::new(Decimal::from_i64(1000), Decimal::from_i64(-5000))
    }
}

/// Why a risk check failed.
#[derive(Debug)]
pub enum RiskViolation {
    /// The proposed position exceeds the per-symbol limit.
    PositionLimitExceeded { symbol: String, current: Decimal, proposed: Decimal, max: Decimal },
    /// Realized daily PnL is below the daily loss limit.
    DailyLossExceeded { realized: Decimal, limit: Decimal, excess: Decimal },
    /// The order is larger than the maximum order size.
    OrderSizeExceeded { size: Decimal, max: Decimal },
    /// The order's notional value is above the maximum.
    NotionalExceeded { notional: Decimal, max: Decimal },
    /// Opening a position would exceed the concurrent position limit.
    ConcurrentPositionLimitExceeded { current: usize, max: usize },
    /// Several violations at once.
    Multiple(Vec<Box<RiskViolation>>),
}

/// The display text of a decimal.
pub open spec fn dtext(d: Decimal) -> Seq<char> {
    decimal_text(d.m(), d.s())
}

/// The debug text of a violation, as `{:?}` writes it.
pub open spec fn violation_debug(v: RiskViolation) -> Seq<char>
    decreases v, 0nat,
{
    match v {
        RiskViolation::PositionLimitExceeded { symbol, current, proposed, max } => "PositionLimitExceeded { symbol: "@
            + debug_text(symbol@) + ", current: "@ + dtext(current) + ", proposed: "@ + dtext(proposed) + ", max: "@
            + dtext(max) + " }"@,
        RiskViolation::DailyLossExceeded { realized, limit, excess } => "DailyLossExceeded { realized: "@ + dtext(
            realized,
        ) + ", limit: "@ + dtext(limit) + ", excess: "@ + dtext(excess) + " }"@,
        RiskViolation::OrderSizeExceeded { size, max } => "OrderSizeExceeded { size: "@ + dtext(size) + ", max: "@
            + dtext(max) + " }"@,
        RiskViolation::NotionalExceeded { notional, max } => "NotionalExceeded { notional: "@ + dtext(notional)
            + ", max: "@ + dtext(max) + " }"@,
        RiskViolation::ConcurrentPositionLimitExceeded { current, max } => "ConcurrentPositionLimitExceeded { current: "@
            + digits(current as nat) + ", max: "@ + digits(max as nat) + " }"@,
        RiskViolation::Multiple(vs) => "Multiple(["@ + debug_list(vs@, vs@.len()) + "])"@,
    }
}

/// The debug texts of the first `n` violations, separated by `, `.
pub open spec fn debug_list(vs: Seq<Box<RiskViolation>>, n: nat) -> Seq<char>
    decreases vs, n,
{
    if n == 0 || n > vs.len() {
        Seq::empty()
    } else if n == 1 {
        violation_debug(*vs[0])
    } else {
        debug_list(vs, (n - 1) as nat) + ", "@ + violation_debug(*vs[n - 1])
    }
}

/// The display text of a violation.
pub open spec fn violation_text(v: RiskViolation) -> Seq<char> {
    match v {
        RiskViolation::PositionLimitExceeded { symbol, current, proposed, max } => "Position limit exceeded: symbol="@
            + symbol@ + ", current="@ + dtext(current) + ", proposed="@ + dtext(proposed) + ", max="@ + dtext(max),
        RiskViolation::DailyLossExceeded { realized, limit, excess } => "Daily loss limit exceeded: realized="@
            + dtext(realized) + ", limit="@ + dtext(limit) + ", excess="@ + dtext(excess),
        RiskViolation::OrderSizeExceeded { size, max } => "Order size exceeded: size="@ + dtext(size) + ", max="@
            + dtext(max),
        RiskViolation::NotionalExceeded { notional, max } => "Notional value exceeded: notional="@ + dtext(notional)
            + ", max="@ + dtext(max),
        RiskViolation::ConcurrentPositionLimitExceeded { current, max } => "Concurrent position limit exceeded: current="@
            + digits(current as nat) + ", max="@ + digits(max as nat),
        RiskViolation::Multiple(vs) => "Multiple violations: ["@ + debug_list(vs@, vs@.len()) + "]"@,
    }
}

impl RiskViolation {
    /// The debug text, as `{:?}` writes it.
    pub fn debug_string(&self) -> (r: String)
        ensures
            r@ == violation_debug(*self),
        decreases self,
    {
        proof {
            reveal_strlit("PositionLimitExceeded { symbol: ");
            reveal_strlit(", current: ");
            reveal_strlit(", proposed: ");
            reveal_strlit(", max: ");
            reveal_strlit(" }");
            reveal_strlit("DailyLossExceeded { realized: ");
            reveal_strlit(", limit: ");
            reveal_strlit(", excess: ");
            reveal_strlit("OrderSizeExceeded { size: ");
            reveal_strlit("NotionalExceeded { notional: ");
            reveal_strlit("ConcurrentPositionLimitExceeded { current: ");
            reveal_strlit("Multiple([");
            reveal_strlit("])");
        }
        match self {
            RiskViolation::PositionLimitExceeded { symbol, current, proposed, max } => {
                let mut t = String::from_str("PositionLimitExceeded { symbol: ");
                t.append(str_debug(symbol.as_str()).as_str());
                t.append(", current: ");
                t.append(current.to_string().as_str());
                t.append(", proposed: ");
                t.append(proposed.to_string().as_str());
                t.append(", max: ");
                t.append(max.to_string().as_str());
                t.append(" }");
                t
            },
            RiskViolation::DailyLossExceeded { realized, limit, excess } => {
                let mut t = String::from_str("DailyLossExceeded { realized: ");
                t.append(realized.to_string().as_str());
                t.append(", limit: ");
                t.append(limit.to_string().as_str());
                t.append(", excess: ");
                t.append(excess.to_string().as_str());
                t.append(" }");
                t
            },
            RiskViolation::OrderSizeExceeded { size, max } => {
                let mut t = String::from_str("OrderSizeExceeded { size: ");
                t.append(size.to_string().as_str());
                t.append(", max: ");
                t.append(max.to_string().as_str());
                t.append(" }");
                t
            },
            RiskViolation::NotionalExceeded { notional, max } => {
                let mut t = String::from_str("NotionalExceeded { notional: ");
                t.append(notional.to_string().as_str());
                t.append(", max: ");
                t.append(max.to_string().as_str());
                t.append(" }");
                t
            },
            RiskViolation::ConcurrentPositionLimitExceeded { current, max } => {
                let mut t = String::from_str("ConcurrentPositionLimitExceeded { current: ");
                t.append(u64_text(*current as u64).as_str());
                t.append(", max: ");
                t.append(u64_text(*max as u64).as_str());
                t.append(" }");
                t
            },
            RiskViolation::Multiple(vs) => {
                let mut t = String::from_str("Multiple([");
                t.append(Self::debug_items(vs).as_str());
                t.append("])");
                t
            },
        }
    }

    fn debug_items(vs: &Vec<Box<RiskViolation>>) -> (r: String)
        ensures
            r@ == debug_list(vs@, vs@.len()),
        decreases vs, 1nat,
    {
        let mut t = String::new();
        let mut i: usize = 0;
        while i < vs.len()
            invariant
                i <= vs@.len(),
                t@ == debug_list(vs@, i as nat),
            decreases vs@.len() - i,
        {
            proof {
                reveal_strlit(", ");
                assert(decreases_to!(*vs => vs@));
                assert(decreases_to!(vs@ => vs@[i as int]));
            }
            let inner: &RiskViolation = &vs[i];
            if i > 0 {
                t.append(", ");
            }
            t.append(inner.debug_string().as_str());
            i = i + 1;
        }
        t
    }

    /// The error message.
    pub fn message(&self) -> (r: String)
        ensures
            r@ == violation_text(*self),
    {
        proof {
            reveal_strlit("Position limit exceeded: symbol=");
            reveal_strlit(", current=");
            reveal_strlit(", proposed=");
            reveal_strlit(", max=");
            reveal_strlit("Daily loss limit exceeded: realized=");
            reveal_strlit(", limit=");
            reveal_strlit(", excess=");
            reveal_strlit("Order size exceeded: size=");
            reveal_strlit("Notional value exceeded: notional=");
            reveal_strlit("Concurrent position limit exceeded: current=");
            reveal_strlit("Multiple violations: [");
            reveal_strlit("]");
        }
        match self {
            RiskViolation::PositionLimitExceeded { symbol, current, proposed, max } => {
                let mut t = String::from_str("Position limit exceeded: symbol=");
                t.append(symbol.as_str());
                t.append(", current=");
                t.append(current.to_string().as_str());
                t.append(", proposed=");
                t.append(proposed.to_string().as_str());
                t.append(", max=");
                t.append(max.to_string().as_str());
                t
            },
            RiskViolation::DailyLossExceeded { realized, limit, excess } => {
                let mut t = String::from_str("Daily loss limit exceeded: realized=");
                t.append(realized.to_string().as_str());
                t.append(", limit=");
                t.append(limit.to_string().as_str());
                t.append(", excess=");
                t.append(excess.to_string().as_str());
                t
            },
            RiskViolation::OrderSizeExceeded { size, max } => {
                let mut t = String::from_str("Order size exceeded: size=");
                t.append(size.to_string().as_str());
                t.append(", max=");
                t.append(max.to_string().as_str());
                t
            },
            RiskViolation::NotionalExceeded { notional, max } => {
                let mut t = String::from_str("Notional value exceeded: notional=");
                t.append(notional.to_string().as_str());
                t.append(", max=");
                t.append(max.to_string().as_str());
                t
            },
            RiskViolation::ConcurrentPositionLimitExceeded { current, max } => {
                let mut t = String::from_str("Concurrent position limit exceeded: current=");
                t.append(u64_text(*current as u64).as_str());
                t.append(", max=");
                t.append(u64_text(*max as u64).as_str());
                t
            },
            RiskViolation::Multiple(vs) => {
                let mut t = String::from_str("Multiple violations: [");
                t.append(Self::debug_items(vs).as_str());
                t.append("]");
                t
            },
        }
    }
}

/// A trade fill.
#[derive(Debug, Clone)]
pub struct Fill {
    pub order_id: OrderId,
    pub symbol: Symbol,
    pub side: Side,
    pub quantity: Decimal,
    pub price: Decimal,
    pub timestamp_ns: u64,
}

impl Fill {
    /// A new fill.
    pub fn new(order_id: OrderId, symbol: &str, side: Side, quantity: Decimal, price: Decimal, timestamp_ns: u64) -> (r: Fill)
        ensures
            r.order_id == order_id,
            r.symbol@ == symbol@,
            r.side == side,
            r.quantity == quantity,
            r.price == price,
            r.timestamp_ns == timestamp_ns,
    {
        Fill { order_id, symbol: String::from_str(symbol), side, quantity, price, timestamp_ns }
    }

    /// Notional value: `quantity * price`.
    pub fn notional(&self) -> (r: Decimal)
        requires
            product_ok(self.quantity, self.price),
        ensures
            r == product_spec(self.quantity, self.price),
    {
        self.quantity.times(self.price)
    }
}

/// An order for risk validation.
#[derive(Debug, Clone)]
pub struct Order {
    pub id: OrderId,
    pub symbol: Symbol,
    pub side: Side,
    pub quantity: Decimal,
    /// Limit price; `None` for a market order.
    pub price: Option<Decimal>,
    pub state: OrderState,
    pub filled_quantity: Decimal,
    pub created_ns: u64,
}

impl Order {
    /// A pending market order with nothing filled.
    pub fn new(id: OrderId, symbol: &str, side: Side, quantity: Decimal) -> (r: Order)
        ensures
            r.id == id,
            r.symbol@ == symbol@,
            r.side == side,
            r.quantity == quantity,
            r.price is None,
            r.state == OrderState::Pending,
            r.filled_quantity == zero_spec(),
            r.created_ns == 0,
    {
        Order {
            id,
            symbol: String::from_str(symbol),
            side,
            quantity,
            price: None,
            state: OrderState::Pending,
            filled_quantity: Decimal::zero(),
            created_ns: 0,
        }
    }

    /// Sets the limit price.
    pub fn with_limit_price(self, price: Decimal) -> (r: Order)
        ensures
            r == (Order { price: Some(price), ..self }),
    {
        let mut r = self;
        r.price = Some(price);
        r
    }

    /// Sets the creation timestamp.
    pub fn with_timestamp(self, ns: u64) -> (r: Order)
        ensures
            r == (Order { created_ns: ns, ..self }),
    {
        let mut r = self;
        r.created_ns = ns;
        r
    }

    /// Moves the order to `new_state` when the lifecycle allows it; otherwise
    /// leaves it unchanged and reports why.
    pub fn transition_state(&mut self, new_state: OrderState) -> (r: Result<(), StateTransitionError>)
        ensures
            r is Ok <==> old(self).state.allows(new_state),
            r is Ok ==> *final(self) == (Order { state: new_state, ..*old(self) }),
            r is Err ==> *final(self) == *old(self) && r->Err_0 == old(self).state.transition_result(
                new_state,
            )->Err_0,
    {
        let next = self.state.transition(new_state)?;
        self.state = next;
        Ok(())
    }

    /// Adds a fill: the filled quantity grows by `fill_qty` (whether or not the
    /// state change is allowed), then the order moves to Filled when the filled
    /// quantity reaches the order quantity, and to PartialFill otherwise.
    pub fn apply_fill(&mut self, fill_qty: &Decimal, fill_price: &Decimal, timestamp_ns: u64) -> (r: Result<(), StateTransitionError>)
        requires
            sum_ok(old(self).filled_quantity, *fill_qty),
        ensures
            ({
                let filled = sum_spec(old(self).filled_quantity, *fill_qty);
                let target = if filled.val() >= old(self).quantity.val() {
                    OrderState::Filled
                } else {
                    OrderState::PartialFill
                };
                &&& final(self).filled_quantity == filled
                &&& (r is Ok <==> old(self).state.allows(target))
                &&& final(self).state == (if r is Ok {
                    target
                } else {
                    old(self).state
                })
                &&& r is Err ==> r->Err_0 == old(self).state.transition_result(target)->Err_0
                &&& final(self).id == old(self).id && final(self).symbol == old(self).symbol
                &&& final(self).side == old(self).side && final(self).quantity == old(self).quantity
                &&& final(self).price == old(self).price && final(self).created_ns == old(self).created_ns
            }),
    {
        self.filled_quantity = self.filled_quantity.plus(*fill_qty);
        let new_state = if self.filled_quantity.ge(&self.quantity) {
            OrderState::Filled
        } else {
            OrderState::PartialFill
        };
        self.transition_state(new_state)?;
        Ok(())
    }

    /// Quantity still to fill: `quantity - filled_quantity`.
    pub fn remaining_quantity(&self) -> (r: Decimal)
        requires
            difference_ok(self.quantity, self.filled_quantity),
        ensures
            r == difference_spec(self.quantity, self.filled_quantity),
    {
        self.quantity.minus(self.filled_quantity)
    }

    /// Whether the remaining quantity is zero.
    pub fn is_filled(&self) -> (r: bool)
        requires
            difference_ok(self.quantity, self.filled_quantity),
        ensures
            r == (difference_spec(self.quantity, self.filled_quantity).val() == 0),
    {
        self.remaining_quantity().is_zero()
    }
}

/// No two positions share a symbol.
pub open spec fn unique_symbols(s: Seq<Position>) -> bool {
    forall|i: int, j: int|
        0 <= i < s.len() && 0 <= j < s.len() && i != j ==> #[trigger] s[i].symbol@ != #[trigger] s[j].symbol@
}

/// Some position has this symbol.
pub open spec fn has_symbol(s: Seq<Position>, sym: Seq<char>) -> bool {
    exists|i: int| 0 <= i < s.len() && #[trigger] s[i].symbol@ == sym
}

/// The position with this symbol, if any.
pub open spec fn lookup(s: Seq<Position>, sym: Seq<char>) -> Option<Position> {
    if has_symbol(s, sym) {
        Some(s[choose|i: int| 0 <= i < s.len() && #[trigger] s[i].symbol@ == sym])
    } else {
        None
    }
}

/// In a sequence without repeated symbols, the lookup of an entry's symbol is that entry.
pub proof fn lemma_lookup_at(s: Seq<Position>, i: int)
    requires
        unique_symbols(s),
        0 <= i < s.len(),
    ensures
        lookup(s, s[i].symbol@) == Some(s[i]),
{
    let sym = s[i].symbol@;
    assert(has_symbol(s, sym));
    let j = choose|j: int| 0 <= j < s.len() && #[trigger] s[j].symbol@ == sym;
    assert(s[j].symbol@ == sym);
    assert(i == j);
}

/// Positions keyed by symbol; no symbol occurs twice.
#[derive(Debug)]
pub struct PositionBook {
    entries: Vec<Position>,
}

impl PositionBook {
    #[verifier::type_invariant]
    pub open spec fn inv(self) -> bool {
        unique_symbols(self.seq())
    }

    /// The positions in insertion order.
    pub closed spec fn seq(self) -> Seq<Position> {
        self.entries@
    }

    /// The position of `sym`, if any.
    pub open spec fn get_spec(self, sym: Seq<char>) -> Option<Position> {
        lookup(self.seq(), sym)
    }

    /// An empty book.
    pub fn new() -> (r: PositionBook)
        ensures
            r.seq() == Seq::<Position>::empty(),
    {
        PositionBook { entries: Vec::new() }
    }

    /// The number of positions.
    pub fn len(&self) -> (r: usize)
        ensures
            r == self.seq().len(),
    {
        self.entries.len()
    }

    /// Whether the book holds no position.
    pub fn is_empty(&self) -> (r: bool)
        ensures
            r == (self.seq().len() == 0),
    {
        self.entries.len() == 0
    }

    /// The positions in insertion order.
    pub fn values(&self) -> (r: &Vec<Position>)
        ensures
            r@ == self.seq(),
    {
        &self.entries
    }

    /// Index of the position of `symbol`, if any.
    pub fn find(&self, symbol: &str) -> (r: Option<usize>)
        ensures
            match r {
                Some(i) => i < self.seq().len() && self.seq()[i as int].symbol@ == symbol@,
                None => !has_symbol(self.seq(), symbol@),
            },
    {
        let key = String::from_str(symbol);
        let mut i: usize = 0;
        while i < self.entries.len()
            invariant
                i <= self.entries@.len(),
                key@ == symbol@,
                forall|j: int| 0 <= j < i ==> #[trigger] self.entries@[j].symbol@ != key@,
            decreases self.entries@.len() - i,
        {
            if self.entries[i].symbol == key {
                return Some(i);
            }
            i = i + 1;
        }
        None
    }

    /// The position of `symbol`, if any.
    pub fn get(&self, symbol: &str) -> (r: Option<&Position>)
        ensures
            r is Some <==> self.get_spec(symbol@) is Some,
            r is Some ==> *r->Some_0 == self.get_spec(symbol@)->Some_0,
    {
        proof {
            use_type_invariant(self);
        }
        match self.find(symbol) {
            Some(i) => {
                proof {
                    lemma_lookup_at(self.seq(), i as int);
                }
                Some(&self.entries[i])
            },
            None => None,
        }
    }

    /// Inserts `position`, replacing and returning the one with the same symbol.
    pub fn insert(&mut self, position: Position) -> (r: Option<Position>)
        ensures
            final(self).get_spec(position.symbol@) == Some(position),
            r == old(self).get_spec(position.symbol@),
            forall|sym: Seq<char>|
                sym != position.symbol@ ==> #[trigger] final(self).get_spec(sym) == old(self).get_spec(sym),
    {
        proof {
            use_type_invariant(&*self);
        }
        let ghost old_seq = self.seq();
        match self.find(position.symbol.as_str()) {
            Some(i) => {
                proof {
                    lemma_lookup_at(old_seq, i as int);
                }
                let mut entries = Vec::new();
                std::mem::swap(&mut entries, &mut self.entries);
                let old_position = entries.remove(i);
                entries.insert(i, position);
                proof {
                    let s = entries@;
                    assert(s == old_seq.update(i as int, position));
                    assert(unique_symbols(s));
                    lemma_lookup_at(s, i as int);
                    assert forall|sym: Seq<char>| sym != position.symbol@ implies #[trigger] lookup(s, sym)
                        == lookup(old_seq, sym) by {
                        if has_symbol(old_seq, sym) {
                            let k = choose|k: int| 0 <= k < old_seq.len() && #[trigger] old_seq[k].symbol@ == sym;
                            assert(k != i);
                            assert(s[k] == old_seq[k]);
                            lemma_lookup_at(old_seq, k);
                            lemma_lookup_at(s, k);
                        } else {
                            assert forall|k: int| 0 <= k < s.len() implies #[trigger] s[k].symbol@ != sym by {
                                if k != i {
                                    assert(s[k] == old_seq[k]);
                                }
                            }
                        }
                    }
                }
                self.entries = entries;
                Some(old_position)
            },
            None => {
                let mut entries = Vec::new();
                std::mem::swap(&mut entries, &mut self.entries);
                entries.push(position);
                proof {
                    let s = entries@;
                    assert(s == old_seq.push(position));
                    assert(unique_symbols(s));
                    lemma_lookup_at(s, old_seq.len() as int);
                    assert forall|sym: Seq<char>| sym != position.symbol@ implies #[trigger] lookup(s, sym)
                        == lookup(old_seq, sym) by {
                        if has_symbol(old_seq, sym) {
                            let k = choose|k: int| 0 <= k < old_seq.len() && #[trigger] old_seq[k].symbol@ == sym;
                            assert(s[k] == old_seq[k]);
                            lemma_lookup_at(old_seq, k);
                            lemma_lookup_at(s, k);
                        } else {
                            assert forall|k: int| 0 <= k < s.len() implies #[trigger] s[k].symbol@ != sym by {
                                if k < old_seq.len() {
                                    assert(s[k] == old_seq[k]);
                                }
                            }
                        }
                    }
                }
                self.entries = entries;
                None
            },
        }
    }

    /// The numbers of `sym`'s position, or a flat position when there is none.
    pub open spec fn state_of(self, sym: Seq<char>) -> PositionState {
        match self.get_spec(sym) {
            Some(p) => p.state(),
            None => PositionState::flat(),
        }
    }

    /// Applies a fill to `symbol`'s position, creating a flat one first when
    /// the symbol has none; returns the index of the position.
    pub fn apply_fill_to(&mut self, symbol: &str, qty: &Decimal, price: &Decimal, side: Side, timestamp_ns: u64) -> (r: usize)
        requires
            old(self).state_of(symbol@).fill_ok(*qty, *price, side),
        ensures
            r < final(self).seq().len(),
            final(self).get_spec(symbol@) == Some(final(self).seq()[r as int]),
            final(self).seq()[r as int].symbol@ == symbol@,
            final(self).seq()[r as int].state() == old(self).state_of(symbol@).after_fill(
                *qty,
                *price,
                side,
                timestamp_ns,
            ),
            forall|sym: Seq<char>|
                sym != symbol@ ==> #[trigger] final(self).get_spec(sym) == old(self).get_spec(sym),
    {
        proof {
            use_type_invariant(&*self);
        }
        let ghost old_seq = self.seq();
        let mut entries = Vec::new();
        std::mem::swap(&mut entries, &mut self.entries);
        let i = match self_find(&entries, symbol) {
            Some(i) => {
                proof {
                    lemma_lookup_at(old_seq, i as int);
                }
                i
            },
            None => {
                entries.push(Position::new(symbol));
                proof {
                    assert(unique_symbols(entries@)) by {
                        assert forall|a: int, b: int|
                            0 <= a < entries@.len() && 0 <= b < entries@.len() && a != b implies #[trigger] entries@[a].symbol@
                            != #[trigger] entries@[b].symbol@ by {
                            if a < old_seq.len() && b < old_seq.len() {
                                assert(entries@[a] == old_seq[a]);
                                assert(entries@[b] == old_seq[b]);
                            } else if a < old_seq.len() {
                                assert(entries@[a] == old_seq[a]);
                            } else {
                                assert(entries@[b] == old_seq[b]);
                            }
                        }
                    }
                }
                entries.len() - 1
            },
        };
        let ghost mid_seq = entries@;
        let mut p = entries.remove(i);
        p.apply_fill(qty, price, side, timestamp_ns);
        entries.insert(i, p);
        proof {
            let s = entries@;
            assert(s == mid_seq.update(i as int, p));
            assert(unique_symbols(s)) by {
                assert forall|a: int, b: int|
                    0 <= a < s.len() && 0 <= b < s.len() && a != b implies #[trigger] s[a].symbol@
                    != #[trigger] s[b].symbol@ by {
                    assert(s[a].symbol@ == mid_seq[a].symbol@);
                    assert(s[b].symbol@ == mid_seq[b].symbol@);
                }
            }
            lemma_lookup_at(s, i as int);
            assert forall|sym: Seq<char>| sym != symbol@ implies #[trigger] lookup(s, sym) == lookup(
                old_seq,
                sym,
            ) by {
                if has_symbol(old_seq, sym) {
                    let k = choose|k: int| 0 <= k < old_seq.len() && #[trigger] old_seq[k].symbol@ == sym;
                    assert(mid_seq[k] == old_seq[k]);
                    assert(k != i);
                    assert(s[k] == old_seq[k]);
                    lemma_lookup_at(old_seq, k);
                    lemma_lookup_at(s, k);
                } else {
                    assert forall|k: int| 0 <= k < s.len() implies #[trigger] s[k].symbol@ != sym by {
                        if k != i {
                            assert(s[k] == mid_seq[k]);
                            if k < old_seq.len() {
                                assert(mid_seq[k] == old_seq[k]);
                            }
                        }
                    }
                }
            }
        }
        self.entries = entries;
        i
    }

    /// Marks every position that has a price in `prices`; returns the sum of
    /// their unrealized PnL, in book order.
    pub fn mark_all(&mut self, prices: &PriceTable) -> (r: Decimal)
        requires
            marks_ok(old(self).seq(), *prices),
        ensures
            final(self).seq() == old(self).seq().map_values(|p: Position| marked(p, *prices)),
            r == marked_sum(old(self).seq(), *prices),
    {
        proof {
            use_type_invariant(&*self);
        }
        let ghost old_seq = self.seq();
        let mut entries = Vec::new();
        std::mem::swap(&mut entries, &mut self.entries);
        let mut total = Decimal::zero();
        let mut i: usize = 0;
        while i < entries.len()
            invariant
                i <= entries@.len(),
                entries@.len() == old_seq.len(),
                marks_ok(old_seq, *prices),
                forall|k: int| 0 <= k < i ==> #[trigger] entries@[k] == marked(old_seq[k], *prices),
                forall|k: int| i <= k < entries@.len() ==> #[trigger] entries@[k] == old_seq[k],
                total == marked_sum(old_seq.take(i as int), *prices),
            decreases entries@.len() - i,
        {
            let ghost before = entries@;
            proof {
                assert(old_seq.take(i + 1).drop_last() == old_seq.take(i as int));
                assert(old_seq.take(i + 1).last() == old_seq[i as int]);
            }
            match prices.get(entries[i].symbol.as_str()) {
                Some(mark) => {
                    let mut p = entries.remove(i);
                    p.update_unrealized_pnl(&mark);
                    let u = p.unrealized_pnl;
                    entries.insert(i, p);
                    total = total.plus(u);
                },
                None => {},
            }
            proof {
                assert forall|k: int| 0 <= k < entries@.len() && k != i implies #[trigger] entries@[k] == before[k] by {}
            }
            i = i + 1;
        }
        proof {
            assert(old_seq.take(old_seq.len() as int) == old_seq);
            assert(entries@ == old_seq.map_values(|p: Position| marked(p, *prices)));
            assert(unique_symbols(entries@)) by {
                assert forall|a: int, b: int|
                    0 <= a < entries@.len() && 0 <= b < entries@.len() && a != b implies #[trigger] entries@[a].symbol@
                    != #[trigger] entries@[b].symbol@ by {
                    assert(entries@[a].symbol == old_seq[a].symbol);
                    assert(entries@[b].symbol == old_seq[b].symbol);
                }
            }
        }
        self.entries = entries;
        total
    }

    /// Removes every position.
    pub fn clear(&mut self)
        ensures
            final(self).seq() == Seq::<Position>::empty(),
    {
        self.entries = Vec::new();
    }
}

/// `p` marked at its price in `prices`, or `p` itself when it has none.
pub open spec fn marked(p: Position, prices: PriceTable) -> Position {
    match prices.get_spec(p.symbol@) {
        Some(m) => Position { unrealized_pnl: p.state().unrealized_at(m), ..p },
        None => p,
    }
}

/// Sum, in order, of the unrealized PnL of the positions that have a price.
pub open spec fn marked_sum(s: Seq<Position>, prices: PriceTable) -> Decimal
    decreases s.len(),
{
    if s.len() == 0 {
        zero_spec()
    } else {
        let rest = marked_sum(s.drop_last(), prices);
        match prices.get_spec(s.last().symbol@) {
            Some(m) => sum_spec(rest, s.last().state().unrealized_at(m)),
            None => rest,
        }
    }
}

/// Marking every priced position, and summing, stays within the decimal range.
pub open spec fn marks_ok(s: Seq<Position>, prices: PriceTable) -> bool {
    forall|i: int|
        0 <= i < s.len() ==> match prices.get_spec(#[trigger] s[i].symbol@) {
            Some(m) => s[i].state().mark_ok(m) && sum_ok(
                marked_sum(s.take(i), prices),
                s[i].state().unrealized_at(m),
            ),
            None => true,
        }
}

/// Index of the position of `symbol` in `entries`, if any.
fn self_find(entries: &Vec<Position>, symbol: &str) -> (r: Option<usize>)
    ensures
        match r {
            Some(i) => i < entries@.len() && entries@[i as int].symbol@ == symbol@,
            None => !has_symbol(entries@, symbol@),
        },
{
    let key = String::from_str(symbol);
    let mut i: usize = 0;
    while i < entries.len()
        invariant
            i <= entries@.len(),
            key@ == symbol@,
            forall|j: int| 0 <= j < i ==> #[trigger] entries@[j].symbol@ != key@,
        decreases entries@.len() - i,
    {
        if entries[i].symbol == key {
            return Some(i);
        }
        i = i + 1;
    }
    None
}

/// No two prices share a symbol.
pub open spec fn unique_keys(s: Seq<(String, Decimal)>) -> bool {
    forall|i: int, j: int|
        0 <= i < s.len() && 0 <= j < s.len() && i != j ==> #[trigger] s[i].0@ != #[trigger] s[j].0@
}

/// Some price has this symbol.
pub open spec fn has_key(s: Seq<(String, Decimal)>, sym: Seq<char>) -> bool {
    exists|i: int| 0 <= i < s.len() && #[trigger] s[i].0@ == sym
}

/// The price of this symbol, if any.
pub open spec fn price_lookup(s: Seq<(String, Decimal)>, sym: Seq<char>) -> Option<Decimal> {
    if has_key(s, sym) {
        Some(s[choose|i: int| 0 <= i < s.len() && #[trigger] s[i].0@ == sym].1)
    } else {
        None
    }
}

/// In a table without repeated symbols, the lookup of an entry's symbol is that entry's price.
pub proof fn lemma_price_lookup_at(s: Seq<(String, Decimal)>, i: int)
    requires
        unique_keys(s),
        0 <= i < s.len(),
    ensures
        price_lookup(s, s[i].0@) == Some(s[i].1),
{
    let sym = s[i].0@;
    assert(has_key(s, sym));
    let j = choose|j: int| 0 <= j < s.len() && #[trigger] s[j].0@ == sym;
    assert(s[j].0@ == sym);
    assert(i == j);
}

/// Prices keyed by symbol (e.g. mark prices); no symbol occurs twice.
#[derive(Debug)]
pub struct PriceTable {
    entries: Vec<(String, Decimal)>,
}

impl PriceTable {
    #[verifier::type_invariant]
    pub open spec fn inv(self) -> bool {
        unique_keys(self.seq())
    }

    /// The entries in insertion order.
    pub closed spec fn seq(self) -> Seq<(String, Decimal)> {
        self.entries@
    }

    /// The price of `sym`, if any.
    pub open spec fn get_spec(self, sym: Seq<char>) -> Option<Decimal> {
        price_lookup(self.seq(), sym)
    }

    /// An empty table.
    pub fn new() -> (r: PriceTable)
        ensures
            forall|sym: Seq<char>| #[trigger] r.get_spec(sym) is None,
    {
        PriceTable { entries: Vec::new() }
    }

    /// The number of prices.
    pub fn len(&self) -> (r: usize)
        ensures
            r == self.seq().len(),
    {
        self.entries.len()
    }

    /// The price of `symbol`, if any.
    pub fn get(&self, symbol: &str) -> (r: Option<Decimal>)
        ensures
            r == self.get_spec(symbol@),
    {
        proof {
            use_type_invariant(self);
        }
        let key = String::from_str(symbol);
        let mut i: usize = 0;
        while i < self.entries.len()
            invariant
                i <= self.entries@.len(),
                key@ == symbol@,
                unique_keys(self.entries@),
                forall|j: int| 0 <= j < i ==> #[trigger] self.entries@[j].0@ != key@,
            decreases self.entries@.len() - i,
        {
            if self.entries[i].0 == key {
                proof {
                    lemma_price_lookup_at(self.entries@, i as int);
                }
                return Some(self.entries[i].1);
            }
            i = i + 1;
        }
        None
    }

    /// Index of the price of `symbol`, if any.
    fn find(&self, symbol: &str) -> (r: Option<usize>)
        ensures
            match r {
                Some(i) => i < self.seq().len() && self.seq()[i as int].0@ == symbol@,
                None => !has_key(self.seq(), symbol@),
            },
    {
        let key = String::from_str(symbol);
        let mut i: usize = 0;
        while i < self.entries.len()
            invariant
                i <= self.entries@.len(),
                key@ == symbol@,
                forall|j: int| 0 <= j < i ==> #[trigger] self.entries@[j].0@ != key@,
            decreases self.entries@.len() - i,
        {
            if self.entries[i].0 == key {
                return Some(i);
            }
            i = i + 1;
        }
        None
    }

    /// Sets the price of `symbol`, returning the one it replaces.
    pub fn insert(&mut self, symbol: &str, price: Decimal) -> (r: Option<Decimal>)
        ensures
            final(self).get_spec(symbol@) == Some(price),
            r == old(self).get_spec(symbol@),
            forall|sym: Seq<char>| sym != symbol@ ==> #[trigger] final(self).get_spec(sym) == old(self).get_spec(sym),
    {
        proof {
            use_type_invariant(&*self);
        }
        let ghost old_seq = self.seq();
        let found = self.find(symbol);
        let mut entries = Vec::new();
        std::mem::swap(&mut entries, &mut self.entries);
        let (r, i) = match found {
            Some(i) => {
                proof {
                    lemma_price_lookup_at(old_seq, i as int);
                }
                let (name, old_price) = entries.remove(i);
                entries.insert(i, (name, price));
                (Some(old_price), i)
            },
            None => {
                entries.push((String::from_str(symbol), price));
                (None, entries.len() - 1)
            },
        };
        proof {
            let s = entries@;
            assert(s.len() == old_seq.len() || s.len() == old_seq.len() + 1);
            assert(forall|k: int| 0 <= k < old_seq.len() && k != i ==> s[k] == old_seq[k]);
            assert(s[i as int] == (s[i as int].0, price) && s[i as int].0@ == symbol@);
            assert(unique_keys(s)) by {
                assert forall|a: int, b: int|
                    0 <= a < s.len() && 0 <= b < s.len() && a != b implies #[trigger] s[a].0@ != #[trigger] s[b].0@ by {
                    if a != i && b != i {
                        assert(s[a] == old_seq[a]);
                        assert(s[b] == old_seq[b]);
                    } else if a != i {
                        assert(s[a] == old_seq[a]);
                    } else {
                        assert(s[b] == old_seq[b]);
                    }
                }
            }
            lemma_price_lookup_at(s, i as int);
            assert forall|sym: Seq<char>| sym != symbol@ implies #[trigger] price_lookup(s, sym) == price_lookup(old_seq, sym) by {
                if has_key(old_seq, sym) {
                    let k = choose|k: int| 0 <= k < old_seq.len() && #[trigger] old_seq[k].0@ == sym;
                    assert(k != i);
                    assert(s[k] == old_seq[k]);
                    lemma_price_lookup_at(old_seq, k);
                    lemma_price_lookup_at(s, k);
                } else {
                    assert forall|k: int| 0 <= k < s.len() implies #[trigger] s[k].0@ != sym by {
                        if k != i {
                            assert(s[k] == old_seq[k]);
                        }
                    }
                }
            }
        }
        self.entries = entries;
        r
    }
}

/// Context for validating against a given snapshot.
#[derive(Debug)]
pub struct ValidationContext<'a> {
    /// Positions snapshot.
    pub positions: &'a PositionBook,
    /// Realized PnL of the day.
    pub daily_realized_pnl: Decimal,
    /// Current timestamp.
    pub timestamp_ns: u64,
}

impl<'a> ValidationContext<'a> {
    /// A new validation context.
    pub fn new(positions: &'a PositionBook, daily_realized_pnl: Decimal, timestamp_ns: u64) -> (r: ValidationContext<'a>)
        ensures
            r.positions == positions,
            r.daily_realized_pnl == daily_realized_pnl,
            r.timestamp_ns == timestamp_ns,
    {
        ValidationContext { positions, daily_realized_pnl, timestamp_ns }
    }
}

} // verus!
