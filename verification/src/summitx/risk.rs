//! The risk manager: position tracking and pre-trade validation.
use crate::decimal::{
    abs_spec, neg_spec, difference_ok, difference_spec, max_spec, min_spec, one_spec, product_ok, product_spec,
    quotient_ok, quotient_spec, sum_ok, sum_spec, zero_spec, Decimal,
};
use crate::summitx::types::{
    Fill, Position, PositionBook, PositionState, PriceTable, RiskLimit, RiskViolation, Side,
    ValidationContext, marked_sum, marks_ok,
};
use vstd::prelude::*;

verus! {

/// Outcome of a risk check.
#[derive(Debug)]
pub enum RiskCheckResult {
    /// Every check passed.
    Pass,
    /// A check failed; several failures come as `RiskViolation::Multiple`.
    Fail(RiskViolation),
}

impl RiskCheckResult {
    /// Whether the check passed.
    pub fn is_pass(&self) -> (r: bool)
        ensures
            r == (*self is Pass),
    {
        match self {
            RiskCheckResult::Pass => true,
            _ => false,
        }
    }

    /// Whether the check failed.
    pub fn is_fail(&self) -> (r: bool)
        ensures
            r == (*self is Fail),
    {
        match self {
            RiskCheckResult::Fail(_) => true,
            _ => false,
        }
    }

    /// The violation of a failed check.
    pub fn violation(&self) -> (r: Option<&RiskViolation>)
        ensures
            r is Some <==> *self is Fail,
            r is Some ==> *r->Some_0 == self->Fail_0,
    {
        match self {
            RiskCheckResult::Fail(v) => Some(v),
            _ => None,
        }
    }
}

/// A single expected violation, with the symbol as text.
pub enum ViolationSpec {
    PositionLimitExceeded { symbol: Seq<char>, current: Decimal, proposed: Decimal, max: Decimal },
    DailyLossExceeded { realized: Decimal, limit: Decimal, excess: Decimal },
    OrderSizeExceeded { size: Decimal, max: Decimal },
    NotionalExceeded { notional: Decimal, max: Decimal },
    ConcurrentPositionLimitExceeded { current: usize, max: usize },
}

/// `v` is the violation `e` describes.
pub open spec fn describes(v: RiskViolation, e: ViolationSpec) -> bool {
    match e {
        ViolationSpec::PositionLimitExceeded { symbol, current, proposed, max } => v matches RiskViolation::PositionLimitExceeded {
            symbol: s,
            current: c,
            proposed: p,
            max: m,
        } && s@ == symbol && c == current && p == proposed && m == max,
        ViolationSpec::DailyLossExceeded { realized, limit, excess } => v matches RiskViolation::DailyLossExceeded {
            realized: r,
            limit: l,
            excess: x,
        } && r == realized && l == limit && x == excess,
        ViolationSpec::OrderSizeExceeded { size, max } => v matches RiskViolation::OrderSizeExceeded {
            size: s,
            max: m,
        } && s == size && m == max,
        ViolationSpec::NotionalExceeded { notional, max } => v matches RiskViolation::NotionalExceeded {
            notional: n,
            max: m,
        } && n == notional && m == max,
        ViolationSpec::ConcurrentPositionLimitExceeded { current, max } => v matches RiskViolation::ConcurrentPositionLimitExceeded {
            current: c,
            max: m,
        } && c == current && m == max,
    }
}

/// `r` reports exactly the violations `es`: a pass when there are none, the
/// violation itself when there is one, and all of them in order as
/// `Multiple` when there are more.
pub open spec fn reports(r: RiskCheckResult, es: Seq<ViolationSpec>) -> bool {
    if es.len() == 0 {
        r is Pass
    } else if es.len() == 1 {
        r is Fail && describes(r->Fail_0, es[0])
    } else {
        &&& r is Fail
        &&& r->Fail_0 is Multiple
        &&& r->Fail_0->Multiple_0@.len() == es.len()
        &&& forall|i: int| 0 <= i < es.len() ==> describes(*#[trigger] r->Fail_0->Multiple_0@[i], es[i])
    }
}

/// Number of positions that are not flat.
pub open spec fn count_non_flat(s: Seq<Position>) -> nat
    decreases s.len(),
{
    if s.len() == 0 {
        0
    } else {
        count_non_flat(s.drop_last()) + if s.last().quantity.val() != 0 {
            1nat
        } else {
            0nat
        }
    }
}

/// The quantity held in `sym`, zero when there is no position.
pub open spec fn held(book: PositionBook, sym: Seq<char>) -> Decimal {
    match book.get_spec(sym) {
        Some(p) => p.quantity,
        None => zero_spec(),
    }
}

/// The position after an order: `held + quantity * sign(side)`.
pub open spec fn proposed(book: PositionBook, sym: Seq<char>, quantity: Decimal, side: Side) -> Decimal {
    sum_spec(held(book, sym), product_spec(quantity, side.sign_spec()))
}

/// Whether `sym` has a non-flat position.
pub open spec fn has_open_position(book: PositionBook, sym: Seq<char>) -> bool {
    match book.get_spec(sym) {
        Some(p) => p.quantity.val() != 0,
        None => false,
    }
}

/// An order-size violation, if the order is larger than the maximum.
pub open spec fn size_violation(limits: RiskLimit, quantity: Decimal) -> Seq<ViolationSpec> {
    match limits.max_order_size {
        Some(m) => if quantity.val() > m.val() {
            seq![ViolationSpec::OrderSizeExceeded { size: quantity, max: m }]
        } else {
            Seq::empty()
        },
        None => Seq::empty(),
    }
}

/// A notional violation, if `quantity * price` is above the maximum.
pub open spec fn notional_violation(limits: RiskLimit, quantity: Decimal, price: Decimal) -> Seq<ViolationSpec> {
    match limits.max_notional_per_order {
        Some(m) => if product_spec(quantity, price).val() > m.val() {
            seq![ViolationSpec::NotionalExceeded { notional: product_spec(quantity, price), max: m }]
        } else {
            Seq::empty()
        },
        None => Seq::empty(),
    }
}

/// A position-limit violation, if the proposed position exceeds the maximum in magnitude.
pub open spec fn position_violation(
    limits: RiskLimit,
    book: PositionBook,
    sym: Seq<char>,
    quantity: Decimal,
    side: Side,
) -> Seq<ViolationSpec> {
    if abs_spec(proposed(book, sym, quantity, side)).val() > limits.max_position.val() {
        seq![
            ViolationSpec::PositionLimitExceeded {
                symbol: sym,
                current: held(book, sym),
                proposed: proposed(book, sym, quantity, side),
                max: limits.max_position,
            },
        ]
    } else {
        Seq::empty()
    }
}

/// A concurrent-positions violation, if the order opens a new position while
/// the number of open positions has reached the maximum.
pub open spec fn concurrent_violation(
    limits: RiskLimit,
    book: PositionBook,
    sym: Seq<char>,
    quantity: Decimal,
    side: Side,
) -> Seq<ViolationSpec> {
    match limits.max_concurrent_positions {
        Some(m) => if !has_open_position(book, sym) && proposed(book, sym, quantity, side).val() != 0
            && count_non_flat(book.seq()) >= m {
            seq![
                ViolationSpec::ConcurrentPositionLimitExceeded {
                    current: count_non_flat(book.seq()) as usize,
                    max: m,
                },
            ]
        } else {
            Seq::empty()
        },
        None => Seq::empty(),
    }
}

/// A daily-loss violation, if the day's realized PnL is below the limit.
pub open spec fn loss_violation(limits: RiskLimit, daily: Decimal) -> Seq<ViolationSpec> {
    if daily.val() < limits.daily_loss_limit.val() {
        seq![
            ViolationSpec::DailyLossExceeded {
                realized: daily,
                limit: limits.daily_loss_limit,
                excess: difference_spec(limits.daily_loss_limit, daily),
            },
        ]
    } else {
        Seq::empty()
    }
}

/// The violations of an order, in the order they are checked: order size,
/// notional, position limit, concurrent positions, daily loss.
pub open spec fn violations(
    limits: RiskLimit,
    book: PositionBook,
    daily: Decimal,
    sym: Seq<char>,
    quantity: Decimal,
    price: Decimal,
    side: Side,
) -> Seq<ViolationSpec> {
    size_violation(limits, quantity) + notional_violation(limits, quantity, price) + position_violation(
        limits,
        book,
        sym,
        quantity,
        side,
    ) + concurrent_violation(limits, book, sym, quantity, side) + loss_violation(limits, daily)
}

/// The order respects every limit: its size, its notional, the position
/// limit, the concurrent-position limit, and the daily loss limit.
pub open spec fn within_limits(
    limits: RiskLimit,
    book: PositionBook,
    daily: Decimal,
    sym: Seq<char>,
    quantity: Decimal,
    price: Decimal,
    side: Side,
) -> bool {
    &&& limits.max_order_size matches Some(m) ==> quantity.val() <= m.val()
    &&& limits.max_notional_per_order matches Some(m) ==> product_spec(quantity, price).val() <= m.val()
    &&& abs_spec(proposed(book, sym, quantity, side)).val() <= limits.max_position.val()
    &&& limits.max_concurrent_positions matches Some(m) ==> ((book.get_spec(sym) is Some && book.get_spec(
        sym,
    )->Some_0.quantity.val() != 0) || proposed(book, sym, quantity, side).val() == 0 || count_non_flat(book.seq())
        < m)
    &&& daily.val() >= limits.daily_loss_limit.val()
}

/// A validation passes exactly when the order respects every limit.
pub proof fn lemma_pass_iff_within_limits(
    r: RiskCheckResult,
    limits: RiskLimit,
    book: PositionBook,
    daily: Decimal,
    sym: Seq<char>,
    quantity: Decimal,
    price: Decimal,
    side: Side,
)
    requires
        reports(r, violations(limits, book, daily, sym, quantity, price, side)),
    ensures
        r is Pass <==> within_limits(limits, book, daily, sym, quantity, price, side),
{
}

/// An order that would take the position beyond the position limit is
/// refused, and the refusal reports the position limit.
pub proof fn lemma_breach_is_refused(
    r: RiskCheckResult,
    limits: RiskLimit,
    book: PositionBook,
    daily: Decimal,
    sym: Seq<char>,
    quantity: Decimal,
    price: Decimal,
    side: Side,
)
    requires
        reports(r, violations(limits, book, daily, sym, quantity, price, side)),
        abs_spec(proposed(book, sym, quantity, side)).val() > limits.max_position.val(),
    ensures
        r is Fail,
        exists|i: int|
            0 <= i < violations(limits, book, daily, sym, quantity, price, side).len() && (#[trigger] violations(
                limits,
                book,
                daily,
                sym,
                quantity,
                price,
                side,
            )[i]) is PositionLimitExceeded,
{
    let es = violations(limits, book, daily, sym, quantity, price, side);
    let k = size_violation(limits, quantity).len() + notional_violation(limits, quantity, price).len();
    assert(es[k as int] is PositionLimitExceeded);
}

/// Validating against a context made of the manager's own positions and
/// day's realized PnL reports exactly what validating against the manager
/// itself reports.
pub proof fn lemma_own_context<'a>(
    m: RiskManager,
    context: ValidationContext<'a>,
    r: RiskCheckResult,
    sym: Seq<char>,
    quantity: Decimal,
    price: Decimal,
    side: Side,
)
    requires
        *context.positions == m.positions,
        context.daily_realized_pnl == m.daily_realized_pnl,
        reports(r, violations(m.limits, *context.positions, context.daily_realized_pnl, sym, quantity, price, side)),
    ensures
        reports(r, violations(m.limits, m.positions, m.daily_realized_pnl, sym, quantity, price, side)),
{
}

/// The check result reports a violation that satisfies `f`: the violation of
/// a failure, or one of several.
pub open spec fn flags(r: RiskCheckResult, f: spec_fn(RiskViolation) -> bool) -> bool {
    match r {
        RiskCheckResult::Pass => false,
        RiskCheckResult::Fail(v) => match v {
            RiskViolation::Multiple(vs) => exists|k: int| 0 <= k < vs@.len() && f(*#[trigger] vs@[k]),
            _ => f(v),
        },
    }
}

/// A result that reports the violations `es` reports each of them.
pub proof fn lemma_reports_each(r: RiskCheckResult, es: Seq<ViolationSpec>, k: int, f: spec_fn(RiskViolation) -> bool)
    requires
        reports(r, es),
        0 <= k < es.len(),
        forall|v: RiskViolation| describes(v, es[k]) ==> #[trigger] f(v),
    ensures
        flags(r, f),
{
    if es.len() == 1 {
        assert(describes(r->Fail_0, es[0]));
    } else {
        let vs = r->Fail_0->Multiple_0;
        assert(describes(*vs@[k], es[k]));
    }
}

/// Each limit the order breaks is reported, stated over the inputs: an order
/// larger than the maximum order size; a notional `quantity * price` above the
/// maximum; a position `held + quantity * sign` beyond the position limit in
/// magnitude, short or long; a new position (the symbol holds nothing, or a
/// flat position) while the number of non-flat positions has reached the
/// maximum; a day's realized PnL below the loss limit.
pub open spec fn reports_breaches(
    r: RiskCheckResult,
    limits: RiskLimit,
    book: PositionBook,
    daily: Decimal,
    sym: Seq<char>,
    quantity: Decimal,
    price: Decimal,
    side: Side,
) -> bool {
    &&& (limits.max_order_size is Some && quantity.val() > limits.max_order_size->Some_0.val() ==> flags(
        r,
        |v: RiskViolation| v == RiskViolation::OrderSizeExceeded { size: quantity, max: limits.max_order_size->Some_0 },
    ))
    &&& (limits.max_notional_per_order is Some && product_spec(quantity, price).val()
        > limits.max_notional_per_order->Some_0.val() ==> flags(
        r,
        |v: RiskViolation|
            v == RiskViolation::NotionalExceeded {
                notional: product_spec(quantity, price),
                max: limits.max_notional_per_order->Some_0,
            },
    ))
    &&& (abs_spec(proposed(book, sym, quantity, side)).val() > limits.max_position.val() ==> flags(
        r,
        |v: RiskViolation|
            v matches RiskViolation::PositionLimitExceeded { symbol, proposed: pr, max, .. } && symbol@ == sym && pr
                == proposed(book, sym, quantity, side) && max == limits.max_position,
    ))
    &&& (limits.max_concurrent_positions is Some && (book.get_spec(sym) is Some ==> book.get_spec(
        sym,
    )->Some_0.quantity.val() == 0) && quantity.val() != 0 && count_non_flat(book.seq())
        >= limits.max_concurrent_positions->Some_0 ==> flags(
        r,
        |v: RiskViolation|
            v == RiskViolation::ConcurrentPositionLimitExceeded {
                current: count_non_flat(book.seq()) as usize,
                max: limits.max_concurrent_positions->Some_0,
            },
    ))
    &&& (daily.val() < limits.daily_loss_limit.val() ==> flags(
        r,
        |v: RiskViolation|
            v == RiskViolation::DailyLossExceeded {
                realized: daily,
                limit: limits.daily_loss_limit,
                excess: difference_spec(limits.daily_loss_limit, daily),
            },
    ))
}

/// A validation reports every limit the order breaks (see [`reports_breaches`]).
pub proof fn lemma_breaches_reported(
    r: RiskCheckResult,
    limits: RiskLimit,
    book: PositionBook,
    daily: Decimal,
    sym: Seq<char>,
    quantity: Decimal,
    price: Decimal,
    side: Side,
)
    requires
        quantity.valid(),
        reports(r, violations(limits, book, daily, sym, quantity, price, side)),
    ensures
        reports_breaches(r, limits, book, daily, sym, quantity, price, side),
{
    let es = violations(limits, book, daily, sym, quantity, price, side);
    let s1 = size_violation(limits, quantity);
    let s2 = notional_violation(limits, quantity, price);
    let s3 = position_violation(limits, book, sym, quantity, side);
    let s4 = concurrent_violation(limits, book, sym, quantity, side);
    let s5 = loss_violation(limits, daily);
    assert(es == s1 + s2 + s3 + s4 + s5);
    if limits.max_order_size is Some && quantity.val() > limits.max_order_size->Some_0.val() {
        assert(es[0] == s1[0]);
        lemma_reports_each(r, es, 0, |v: RiskViolation| v == RiskViolation::OrderSizeExceeded { size: quantity, max: limits.max_order_size->Some_0 });
    }
    if limits.max_notional_per_order is Some && product_spec(quantity, price).val() > limits.max_notional_per_order->Some_0.val() {
        let k = s1.len() as int;
        assert(es[k] == s2[0]);
        lemma_reports_each(
            r,
            es,
            k,
            |v: RiskViolation|
                v == RiskViolation::NotionalExceeded { notional: product_spec(quantity, price), max: limits.max_notional_per_order->Some_0 },
        );
    }
    if abs_spec(proposed(book, sym, quantity, side)).val() > limits.max_position.val() {
        let k = (s1.len() + s2.len()) as int;
        assert(es[k] == s3[0]);
        lemma_reports_each(
            r,
            es,
            k,
            |v: RiskViolation|
                v matches RiskViolation::PositionLimitExceeded { symbol, proposed: pr, max, .. } && symbol@ == sym
                    && pr == proposed(book, sym, quantity, side) && max == limits.max_position,
        );
    }
    if limits.max_concurrent_positions is Some && (book.get_spec(sym) is Some ==> book.get_spec(sym)->Some_0.quantity.val()
        == 0) && quantity.val() != 0 && count_non_flat(book.seq()) >= limits.max_concurrent_positions->Some_0 {
        crate::decimal::lemma_sign_product(quantity, side == Side::Buy);
        Decimal::lemma_mk(0, 0);
        crate::decimal::lemma_val_sign(held(book, sym));
        let signed = product_spec(quantity, side.sign_spec());
        assert(proposed(book, sym, quantity, side) == signed);
        assert(!has_open_position(book, sym));
        let k = (s1.len() + s2.len() + s3.len()) as int;
        assert(es[k] == s4[0]);
        lemma_reports_each(
            r,
            es,
            k,
            |v: RiskViolation|
                v == RiskViolation::ConcurrentPositionLimitExceeded {
                    current: count_non_flat(book.seq()) as usize,
                    max: limits.max_concurrent_positions->Some_0,
                },
        );
    }
    if daily.val() < limits.daily_loss_limit.val() {
        let k = (s1.len() + s2.len() + s3.len() + s4.len()) as int;
        assert(es[k] == s5[0]);
        lemma_reports_each(
            r,
            es,
            k,
            |v: RiskViolation|
                v == RiskViolation::DailyLossExceeded {
                    realized: daily,
                    limit: limits.daily_loss_limit,
                    excess: difference_spec(limits.daily_loss_limit, daily),
                },
        );
    }
}

/// `vs` holds, one for one, the violations `es` describes.
pub open spec fn holds_all(vs: Seq<Box<RiskViolation>>, es: Seq<ViolationSpec>) -> bool {
    &&& vs.len() == es.len()
    &&& forall|i: int| 0 <= i < es.len() ==> describes(*#[trigger] vs[i], es[i])
}

/// The check result for the violations found.
fn conclude(found: Vec<Box<RiskViolation>>, Ghost(es): Ghost<Seq<ViolationSpec>>) -> (r: RiskCheckResult)
    requires
        holds_all(found@, es),
    ensures
        reports(r, es),
{
    let mut found = found;
    if found.len() == 0 {
        RiskCheckResult::Pass
    } else if found.len() == 1 {
        let only = found.pop().unwrap();
        RiskCheckResult::Fail(*only)
    } else {
        RiskCheckResult::Fail(RiskViolation::Multiple(found))
    }
}

/// The arithmetic of a validation stays within the decimal range.
pub open spec fn validation_ok(
    limits: RiskLimit,
    book: PositionBook,
    daily: Decimal,
    sym: Seq<char>,
    quantity: Decimal,
    price: Decimal,
    side: Side,
) -> bool {
    &&& limits.max_notional_per_order is Some ==> product_ok(quantity, price)
    &&& sum_ok(held(book, sym), product_spec(quantity, side.sign_spec()))
    &&& daily.val() < limits.daily_loss_limit.val() ==> difference_ok(limits.daily_loss_limit, daily)
}

/// Counts the positions that are not flat.
fn count_open(book: &PositionBook) -> (r: usize)
    ensures
        r == count_non_flat(book.seq()),
{
    let values = book.values();
    let mut n: usize = 0;
    let mut i: usize = 0;
    while i < values.len()
        invariant
            i <= values@.len(),
            values@ == book.seq(),
            n == count_non_flat(values@.take(i as int)),
            n <= i,
        decreases values@.len() - i,
    {
        proof {
            assert(values@.take(i + 1).drop_last() == values@.take(i as int));
        }
        if !values[i].is_flat() {
            n = n + 1;
        }
        i = i + 1;
    }
    proof {
        assert(values@.take(values@.len() as int) == values@);
    }
    n
}

/// `r` is the violation `es` lists, or nothing when the list is empty.
pub open spec fn describes_opt(r: Option<RiskViolation>, es: Seq<ViolationSpec>) -> bool {
    match r {
        Some(v) => es.len() == 1 && describes(v, es[0]),
        None => es.len() == 0,
    }
}

fn check_size(limits: &RiskLimit, quantity: &Decimal) -> (r: Option<RiskViolation>)
    ensures
        describes_opt(r, size_violation(*limits, *quantity)),
{
    if let Some(max_order) = limits.max_order_size {
        if quantity.gt(&max_order) {
            return Some(RiskViolation::OrderSizeExceeded { size: *quantity, max: max_order });
        }
    }
    None
}

fn check_notional(limits: &RiskLimit, quantity: &Decimal, price: &Decimal) -> (r: Option<RiskViolation>)
    requires
        limits.max_notional_per_order is Some ==> product_ok(*quantity, *price),
    ensures
        describes_opt(r, notional_violation(*limits, *quantity, *price)),
{
    if let Some(max_notional) = limits.max_notional_per_order {
        let notional = quantity.times(*price);
        if notional.gt(&max_notional) {
            return Some(RiskViolation::NotionalExceeded { notional, max: max_notional });
        }
    }
    None
}

fn check_position(
    limits: &RiskLimit,
    book: &PositionBook,
    symbol: &str,
    quantity: &Decimal,
    side: Side,
) -> (r: (Option<RiskViolation>, Decimal))
    requires
        sum_ok(held(*book, symbol@), product_spec(*quantity, side.sign_spec())),
    ensures
        describes_opt(r.0, position_violation(*limits, *book, symbol@, *quantity, side)),
        r.1 == proposed(*book, symbol@, *quantity, side),
{
    let current = match book.get(symbol) {
        Some(p) => p.quantity,
        None => Decimal::zero(),
    };
    proof {
        use_type_invariant(quantity);
        crate::decimal::lemma_sign_product_ok(*quantity, side == Side::Buy);
    }
    let proposed = current.plus(quantity.times(side.sign()));
    if proposed.abs().gt(&limits.max_position) {
        (
            Some(
                RiskViolation::PositionLimitExceeded {
                    symbol: String::from_str(symbol),
                    current,
                    proposed,
                    max: limits.max_position,
                },
            ),
            proposed,
        )
    } else {
        (None, proposed)
    }
}

fn check_concurrent(
    limits: &RiskLimit,
    book: &PositionBook,
    symbol: &str,
    quantity: &Decimal,
    side: Side,
    proposed_qty: &Decimal,
) -> (r: Option<RiskViolation>)
    requires
        *proposed_qty == proposed(*book, symbol@, *quantity, side),
    ensures
        describes_opt(r, concurrent_violation(*limits, *book, symbol@, *quantity, side)),
{
    if let Some(max_concurrent) = limits.max_concurrent_positions {
        let current_non_flat = count_open(book);
        let current_has_position = match book.get(symbol) {
            Some(p) => !p.is_flat(),
            None => false,
        };
        if !current_has_position && !proposed_qty.is_zero() && current_non_flat >= max_concurrent {
            return Some(
                RiskViolation::ConcurrentPositionLimitExceeded { current: current_non_flat, max: max_concurrent },
            );
        }
    }
    None
}

fn check_loss(limits: &RiskLimit, daily: Decimal) -> (r: Option<RiskViolation>)
    requires
        daily.val() < limits.daily_loss_limit.val() ==> difference_ok(limits.daily_loss_limit, daily),
    ensures
        describes_opt(r, loss_violation(*limits, daily)),
{
    if daily.lt(&limits.daily_loss_limit) {
        Some(
            RiskViolation::DailyLossExceeded {
                realized: daily,
                limit: limits.daily_loss_limit,
                excess: limits.daily_loss_limit.minus(daily),
            },
        )
    } else {
        None
    }
}

/// Appends a found violation.
fn collect(found: &mut Vec<Box<RiskViolation>>, v: Option<RiskViolation>, Ghost(es): Ghost<Seq<ViolationSpec>>, Ghost(e): Ghost<Seq<ViolationSpec>>)
    requires
        holds_all(old(found)@, es),
        describes_opt(v, e),
    ensures
        holds_all(final(found)@, es + e),
{
    match v {
        Some(v) => {
            found.push(Box::new(v));
            assert(es + e =~= es.push(e[0]));
        },
        None => {
            assert(es + e =~= es);
        },
    }
}

/// Checks an order against the limits, given a positions snapshot and the day's realized PnL.
fn check_order(
    limits: &RiskLimit,
    book: &PositionBook,
    daily: Decimal,
    symbol: &str,
    quantity: &Decimal,
    price: &Decimal,
    side: Side,
) -> (r: RiskCheckResult)
    requires
        validation_ok(*limits, *book, daily, symbol@, *quantity, *price, side),
    ensures
        reports(r, violations(*limits, *book, daily, symbol@, *quantity, *price, side)),
{
    let ghost s1 = size_violation(*limits, *quantity);
    let ghost s2 = notional_violation(*limits, *quantity, *price);
    let ghost s3 = position_violation(*limits, *book, symbol@, *quantity, side);
    let ghost s4 = concurrent_violation(*limits, *book, symbol@, *quantity, side);
    let ghost s5 = loss_violation(*limits, daily);
    let mut found: Vec<Box<RiskViolation>> = Vec::new();
    assert(holds_all(found@, Seq::empty()));
    let v = check_size(limits, quantity);
    collect(&mut found, v, Ghost(Seq::empty()), Ghost(s1));
    assert(Seq::<ViolationSpec>::empty() + s1 =~= s1);
    let v = check_notional(limits, quantity, price);
    collect(&mut found, v, Ghost(s1), Ghost(s2));
    let (v, proposed_qty) = check_position(limits, book, symbol, quantity, side);
    collect(&mut found, v, Ghost(s1 + s2), Ghost(s3));
    let v = check_concurrent(limits, book, symbol, quantity, side, &proposed_qty);
    collect(&mut found, v, Ghost(s1 + s2 + s3), Ghost(s4));
    let v = check_loss(limits, daily);
    collect(&mut found, v, Ghost(s1 + s2 + s3 + s4), Ghost(s5));
    conclude(found, Ghost(s1 + s2 + s3 + s4 + s5))
}

/// Central risk manager: tracks positions and enforces the limits.
#[derive(Debug)]
pub struct RiskManager {
    /// Risk limits.
    pub limits: RiskLimit,
    /// Current positions.
    pub positions: PositionBook,
    /// Realized PnL of the day.
    pub daily_realized_pnl: Decimal,
    /// Unrealized PnL at the last marks.
    pub daily_unrealized_pnl: Decimal,
}

/// Sum, in order, of the absolute quantities.
pub open spec fn exposure_sum(s: Seq<Position>) -> Decimal
    decreases s.len(),
{
    if s.len() == 0 {
        zero_spec()
    } else {
        sum_spec(exposure_sum(s.drop_last()), abs_spec(s.last().quantity))
    }
}

/// Summing the absolute quantities stays within the decimal range.
pub open spec fn exposure_ok(s: Seq<Position>) -> bool {
    forall|i: int| 0 <= i < s.len() ==> sum_ok(exposure_sum(s.take(i)), abs_spec(#[trigger] s[i].quantity))
}

/// Notional of one position at `price`: `|q| * price` (gross) or `q * price` (net).
pub open spec fn position_notional(p: Position, price: Decimal, gross: bool) -> Decimal {
    if gross {
        product_spec(abs_spec(p.quantity), price)
    } else {
        product_spec(p.quantity, price)
    }
}

/// Sum, in order, of the notionals of the positions that have a price.
pub open spec fn notional_sum(s: Seq<Position>, prices: PriceTable, gross: bool) -> Decimal
    decreases s.len(),
{
    if s.len() == 0 {
        zero_spec()
    } else {
        let rest = notional_sum(s.drop_last(), prices, gross);
        match prices.get_spec(s.last().symbol@) {
            Some(price) => sum_spec(rest, position_notional(s.last(), price, gross)),
            None => rest,
        }
    }
}

/// Summing the notionals stays within the decimal range.
pub open spec fn notional_ok(s: Seq<Position>, prices: PriceTable, gross: bool) -> bool {
    forall|i: int|
        0 <= i < s.len() ==> match prices.get_spec(#[trigger] s[i].symbol@) {
            Some(price) => (if gross {
                product_ok(abs_spec(s[i].quantity), price)
            } else {
                product_ok(s[i].quantity, price)
            }) && sum_ok(notional_sum(s.take(i), prices, gross), position_notional(s[i], price, gross)),
            None => true,
        }
}

fn sum_notionals(book: &PositionBook, prices: &PriceTable, gross: bool) -> (r: Decimal)
    requires
        notional_ok(book.seq(), *prices, gross),
    ensures
        r == notional_sum(book.seq(), *prices, gross),
{
    let values = book.values();
    let mut total = Decimal::zero();
    let mut i: usize = 0;
    while i < values.len()
        invariant
            i <= values@.len(),
            values@ == book.seq(),
            notional_ok(values@, *prices, gross),
            total == notional_sum(values@.take(i as int), *prices, gross),
        decreases values@.len() - i,
    {
        proof {
            assert(values@.take(i + 1).drop_last() == values@.take(i as int));
            assert(values@.take(i + 1).last() == values@[i as int]);
        }
        let p = &values[i];
        match prices.get(p.symbol.as_str()) {
            Some(price) => {
                let n = if gross {
                    p.notional_value(&price)
                } else {
                    p.quantity.times(price)
                };
                total = total.plus(n);
            },
            None => {},
        }
        i = i + 1;
    }
    proof {
        assert(values@.take(values@.len() as int) == values@);
    }
    total
}

/// The day's realized loss: the negated PnL when it is negative, zero otherwise.
pub open spec fn daily_loss(realized: Decimal) -> Decimal {
    if realized.val() < 0 {
        neg_spec(realized)
    } else {
        zero_spec()
    }
}

impl RiskManager {
    /// The numbers of `sym`'s position, flat when there is none.
    pub open spec fn entry(self, sym: Seq<char>) -> PositionState {
        self.positions.state_of(sym)
    }

    /// The arithmetic of applying `fill` stays within the decimal range.
    pub open spec fn fill_ok(self, fill: Fill) -> bool {
        let before = self.entry(fill.symbol@);
        let after = before.after_fill(fill.quantity, fill.price, fill.side, fill.timestamp_ns);
        &&& before.fill_ok(fill.quantity, fill.price, fill.side)
        &&& difference_ok(after.realized_pnl, before.realized_pnl)
        &&& sum_ok(self.daily_realized_pnl, difference_spec(after.realized_pnl, before.realized_pnl))
    }

    /// A manager with the given limits, no positions and zero PnL.
    pub fn new(limits: RiskLimit) -> (r: RiskManager)
        ensures
            r.limits == limits,
            r.positions.seq() == Seq::<Position>::empty(),
            r.daily_realized_pnl == zero_spec(),
            r.daily_unrealized_pnl == zero_spec(),
    {
        RiskManager {
            limits,
            positions: PositionBook::new(),
            daily_realized_pnl: Decimal::zero(),
            daily_unrealized_pnl: Decimal::zero(),
        }
    }

    /// The positions.
    pub fn positions(&self) -> (r: &PositionBook)
        ensures
            *r == self.positions,
    {
        &self.positions
    }

    /// The position of `symbol`, if any.
    pub fn position(&self, symbol: &str) -> (r: Option<&Position>)
        ensures
            r is Some <==> self.positions.get_spec(symbol@) is Some,
            r is Some ==> *r->Some_0 == self.positions.get_spec(symbol@)->Some_0,
    {
        self.positions.get(symbol)
    }

    /// Realized PnL of the day.
    pub fn daily_realized_pnl(&self) -> (r: Decimal)
        ensures
            r == self.daily_realized_pnl,
    {
        self.daily_realized_pnl
    }

    /// The limits.
    pub fn limits(&self) -> (r: &RiskLimit)
        ensures
            *r == self.limits,
    {
        &self.limits
    }

    /// Replaces the limits.
    pub fn set_limits(&mut self, limits: RiskLimit)
        ensures
            final(self).limits == limits,
            final(self).positions == old(self).positions,
            final(self).daily_realized_pnl == old(self).daily_realized_pnl,
            final(self).daily_unrealized_pnl == old(self).daily_unrealized_pnl,
    {
        self.limits = limits;
    }

    /// The position after executing an order: `held + quantity * sign(side)`.
    fn proposed_position(&self, symbol: &str, order_qty: &Decimal, side: Side) -> (r: Decimal)
        requires
            sum_ok(held(self.positions, symbol@), product_spec(*order_qty, side.sign_spec())),
        ensures
            r == proposed(self.positions, symbol@, *order_qty, side),
    {
        let current_qty = match self.position(symbol) {
            Some(p) => p.quantity,
            None => Decimal::zero(),
        };
        proof {
            use_type_invariant(order_qty);
            crate::decimal::lemma_sign_product_ok(*order_qty, side == Side::Buy);
        }
        current_qty.plus(order_qty.times(side.sign()))
    }

    /// Validates an order against every limit: order size, notional,
    /// position, concurrent positions and daily loss. Passes when none is
    /// breached; fails with the one violation, or with all of them in that
    /// order as `Multiple`.
    pub fn validate_order(&self, symbol: &str, quantity: &Decimal, price: &Decimal, side: Side) -> (r: RiskCheckResult)
        requires
            validation_ok(self.limits, self.positions, self.daily_realized_pnl, symbol@, *quantity, *price, side),
        ensures
            reports(r, violations(self.limits, self.positions, self.daily_realized_pnl, symbol@, *quantity, *price, side)),
            reports_breaches(r, self.limits, self.positions, self.daily_realized_pnl, symbol@, *quantity, *price, side),
            r is Pass <==> within_limits(self.limits, self.positions, self.daily_realized_pnl, symbol@, *quantity, *price, side),
    {
        let r = check_order(&self.limits, &self.positions, self.daily_realized_pnl, symbol, quantity, price, side);
        proof {
            use_type_invariant(quantity);
            lemma_breaches_reported(r, self.limits, self.positions, self.daily_realized_pnl, symbol@, *quantity, *price, side);
            lemma_pass_iff_within_limits(r, self.limits, self.positions, self.daily_realized_pnl, symbol@, *quantity, *price, side);
        }
        r
    }

    /// Validates an order against the positions and realized PnL of `context`
    /// instead of the manager's own.
    pub fn validate_with_context(
        &self,
        symbol: &str,
        quantity: &Decimal,
        price: &Decimal,
        side: Side,
        context: &ValidationContext<'_>,
    ) -> (r: RiskCheckResult)
        requires
            validation_ok(self.limits, *context.positions, context.daily_realized_pnl, symbol@, *quantity, *price, side),
        ensures
            reports(r, violations(self.limits, *context.positions, context.daily_realized_pnl, symbol@, *quantity, *price, side)),
            reports_breaches(r, self.limits, *context.positions, context.daily_realized_pnl, symbol@, *quantity, *price, side),
            r is Pass <==> within_limits(self.limits, *context.positions, context.daily_realized_pnl, symbol@, *quantity, *price, side),
    {
        let r = check_order(&self.limits, context.positions, context.daily_realized_pnl, symbol, quantity, price, side);
        proof {
            use_type_invariant(quantity);
            lemma_breaches_reported(
                r,
                self.limits,
                *context.positions,
                context.daily_realized_pnl,
                symbol@,
                *quantity,
                *price,
                side,
            );
            lemma_pass_iff_within_limits(
                r,
                self.limits,
                *context.positions,
                context.daily_realized_pnl,
                symbol@,
                *quantity,
                *price,
                side,
            );
        }
        r
    }

    /// Applies a fill to its symbol's position (creating it when missing) and
    /// adds the change in that position's realized PnL to the day's realized
    /// PnL; returns the updated position.
    pub fn apply_fill(&mut self, fill: &Fill) -> (r: &Position)
        requires
            old(self).fill_ok(*fill),
        ensures
            ({
                let before = old(self).entry(fill.symbol@);
                let after = before.after_fill(fill.quantity, fill.price, fill.side, fill.timestamp_ns);
                let change = difference_spec(after.realized_pnl, before.realized_pnl);
                &&& final(self).positions.get_spec(fill.symbol@) == Some(*r)
                &&& r.symbol@ == fill.symbol@
                &&& r.state() == after
                &&& forall|sym: Seq<char>|
                    sym != fill.symbol@ ==> #[trigger] final(self).positions.get_spec(sym) == old(
                        self,
                    ).positions.get_spec(sym)
                &&& final(self).daily_realized_pnl == if change.val() != 0 {
                    sum_spec(old(self).daily_realized_pnl, change)
                } else {
                    old(self).daily_realized_pnl
                }
                &&& final(self).limits == old(self).limits
                &&& final(self).daily_unrealized_pnl == old(self).daily_unrealized_pnl
            }),
    {
        let old_realized = match self.positions.get(fill.symbol.as_str()) {
            Some(p) => p.realized_pnl,
            None => Decimal::zero(),
        };
        let i = self.positions.apply_fill_to(
            fill.symbol.as_str(),
            &fill.quantity,
            &fill.price,
            fill.side,
            fill.timestamp_ns,
        );
        let new_realized = self.positions.values()[i].realized_pnl;
        let pnl_change = new_realized.minus(old_realized);
        if !pnl_change.is_zero() {
            self.daily_realized_pnl = self.daily_realized_pnl.plus(pnl_change);
        }
        &self.positions.values()[i]
    }

    /// Marks every position that has a mark price and sets the unrealized PnL
    /// of the day to the sum of their unrealized PnL.
    pub fn update_unrealized_pnl(&mut self, mark_prices: &PriceTable)
        requires
            marks_ok(old(self).positions.seq(), *mark_prices),
        ensures
            final(self).positions.seq() == old(self).positions.seq().map_values(
                |p: Position| crate::summitx::types::marked(p, *mark_prices),
            ),
            final(self).daily_unrealized_pnl == marked_sum(old(self).positions.seq(), *mark_prices),
            final(self).limits == old(self).limits,
            final(self).daily_realized_pnl == old(self).daily_realized_pnl,
    {
        self.daily_unrealized_pnl = Decimal::zero();
        let total = self.positions.mark_all(mark_prices);
        self.daily_unrealized_pnl = total;
    }

    /// Total exposure: the sum of absolute position sizes.
    pub fn total_exposure(&self) -> (r: Decimal)
        requires
            exposure_ok(self.positions.seq()),
        ensures
            r == exposure_sum(self.positions.seq()),
    {
        let values = self.positions.values();
        let mut total = Decimal::zero();
        let mut i: usize = 0;
        while i < values.len()
            invariant
                i <= values@.len(),
                values@ == self.positions.seq(),
                exposure_ok(values@),
                total == exposure_sum(values@.take(i as int)),
            decreases values@.len() - i,
        {
            proof {
                assert(values@.take(i + 1).drop_last() == values@.take(i as int));
                assert(values@.take(i + 1).last() == values@[i as int]);
            }
            total = total.plus(values[i].abs_quantity());
            i = i + 1;
        }
        proof {
            assert(values@.take(values@.len() as int) == values@);
        }
        total
    }

    /// Gross notional: the sum of `|q| * price` over the positions that have a price.
    pub fn gross_notional(&self, prices: &PriceTable) -> (r: Decimal)
        requires
            notional_ok(self.positions.seq(), *prices, true),
        ensures
            r == notional_sum(self.positions.seq(), *prices, true),
    {
        sum_notionals(&self.positions, prices, true)
    }

    /// Net notional: the sum of `q * price` over the positions that have a price.
    pub fn net_notional(&self, prices: &PriceTable) -> (r: Decimal)
        requires
            notional_ok(self.positions.seq(), *prices, false),
        ensures
            r == notional_sum(self.positions.seq(), *prices, false),
    {
        sum_notionals(&self.positions, prices, false)
    }

    /// Resets the day's PnL (at market open).
    pub fn reset_daily_pnl(&mut self)
        ensures
            final(self).daily_realized_pnl == zero_spec(),
            final(self).daily_unrealized_pnl == zero_spec(),
            final(self).positions == old(self).positions,
            final(self).limits == old(self).limits,
    {
        self.daily_realized_pnl = Decimal::zero();
        self.daily_unrealized_pnl = Decimal::zero();
    }

    /// Resets positions and PnL.
    pub fn reset_all(&mut self)
        ensures
            final(self).positions.seq() == Seq::<Position>::empty(),
            final(self).daily_realized_pnl == zero_spec(),
            final(self).daily_unrealized_pnl == zero_spec(),
            final(self).limits == old(self).limits,
    {
        self.positions.clear();
        self.daily_realized_pnl = Decimal::zero();
        self.daily_unrealized_pnl = Decimal::zero();
    }

    /// Number of positions that are not flat.
    pub fn position_count(&self) -> (r: usize)
        ensures
            r == count_non_flat(self.positions.seq()),
    {
        count_open(&self.positions)
    }

    /// Whether the order would take the position beyond the position limit.
    pub fn would_breach_limits(&self, symbol: &str, quantity: &Decimal, side: Side) -> (r: bool)
        requires
            sum_ok(held(self.positions, symbol@), product_spec(*quantity, side.sign_spec())),
        ensures
            r == (abs_spec(proposed(self.positions, symbol@, *quantity, side)).val() > self.limits.max_position.val()),
    {
        let p = self.proposed_position(symbol, quantity, side);
        p.abs().gt(&self.limits.max_position)
    }

    /// Room left under the position limit: `max(max_position - |held|, 0)`.
    pub fn remaining_capacity(&self, symbol: &str) -> (r: Decimal)
        requires
            difference_ok(self.limits.max_position, abs_spec(held(self.positions, symbol@))),
        ensures
            r == max_spec(difference_spec(self.limits.max_position, abs_spec(held(self.positions, symbol@))), zero_spec()),
            r.val() >= 0,
    {
        let current = match self.position(symbol) {
            Some(p) => p.quantity.abs(),
            None => {
                proof {
                    crate::decimal::lemma_abs_of_zero();
                }
                Decimal::zero()
            },
        };
        self.limits.max_position.minus(current).max(Decimal::zero())
    }

    /// How much of the daily loss limit is used, from 0 to 1, higher meaning
    /// closer to the limit: `min(loss / |limit|, 1)`, where the loss is the
    /// day's realized loss (`-realized` when negative, zero for a profit);
    /// `None` when the limit is zero.
    pub fn daily_loss_utilization(&self) -> (r: Option<Decimal>)
        requires
            self.limits.daily_loss_limit.val() != 0 ==> quotient_ok(
                daily_loss(self.daily_realized_pnl),
                abs_spec(self.limits.daily_loss_limit),
            ),
        ensures
            r is None <==> self.limits.daily_loss_limit.val() == 0,
            r is Some ==> r->Some_0 == min_spec(
                quotient_spec(daily_loss(self.daily_realized_pnl), abs_spec(self.limits.daily_loss_limit)),
                one_spec(),
            ),
            r is Some ==> 0 <= r->Some_0.val() <= one_spec().val(),
            r is Some && self.daily_realized_pnl.val() >= 0 ==> r->Some_0.val() == 0,
    {
        if self.limits.daily_loss_limit.is_zero() {
            return None;
        }
        let zero = Decimal::zero();
        let loss = if self.daily_realized_pnl.lt(&zero) {
            self.daily_realized_pnl.neg()
        } else {
            zero
        };
        let ratio = loss.over(self.limits.daily_loss_limit.abs());
        proof {
            crate::decimal::lemma_one_positive();
            crate::decimal::lemma_abs_of_zero();
            crate::decimal::lemma_val_sign(loss);
        }
        Some(ratio.min(Decimal::one()))
    }
}

} // verus!
