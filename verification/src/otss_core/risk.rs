//! Risk checks on orders, positions and the portfolio.
use crate::decimal::{
    abs_int, lemma_abs_value, pow10, abs_spec, decimal_text, decimal_text_two_places, neg_spec, product_ok, product_spec, quotient_ok,
    quotient_spec, sum_ok, sum_spec, Decimal,
};
use crate::otss_core::portfolio::{value_sum, Portfolio};
use crate::otss_core::types::{Money, Quantity, Symbol};
use vstd::prelude::*;

verus! {

/// The display text of a decimal.
pub open spec fn dec_text(d: Decimal) -> Seq<char> {
    decimal_text(d.m(), d.s())
}

/// The display text of a money amount: `$` and two fractional digits.
pub open spec fn money_text(d: Decimal) -> Seq<char> {
    "$"@ + decimal_text_two_places(d.m(), d.s())
}

/// A ratio written as a percentage with two fractional digits.
pub open spec fn percent_text(d: Decimal) -> Seq<char> {
    decimal_text_two_places(product_spec(d, hundred()).m(), product_spec(d, hundred()).s())
}

/// The integer one hundred.
pub open spec fn hundred() -> Decimal {
    Decimal::mk(100, 0)
}

/// The warning threshold, as a fraction of the exposure limit: 0.8.
pub open spec fn warning_fraction() -> Decimal {
    Decimal::mk(8, 1)
}

/// Risk limits for trading.
#[derive(Debug, Clone, Copy)]
pub struct RiskConfig {
    /// Largest position per symbol, in units.
    pub max_position_size: Quantity,
    /// Largest position value per symbol.
    pub max_position_value: Money,
    /// Largest share of equity held in positions (0 to 1).
    pub max_portfolio_exposure: Decimal,
    /// Largest daily loss before trading halts.
    pub max_daily_loss: Money,
    /// Largest single order.
    pub max_single_order_size: Quantity,
}

impl Default for RiskConfig {
    /// 10000 units per position, 1000000.00 per position value, 0.95
    /// exposure, 100000.00 daily loss, 5000 units per order.
    fn default() -> (r: RiskConfig)
        ensures
            r.max_position_size.dec() == Decimal::mk(10000, 0),
            r.max_position_value.dec() == Decimal::mk(100000000, 2),
            r.max_portfolio_exposure == Decimal::mk(95, 2),
            r.max_daily_loss.dec() == Decimal::mk(10000000, 2),
            r.max_single_order_size.dec() == Decimal::mk(5000, 0),
    {
        RiskConfig {
            max_position_size: Quantity::from(10000i64),
            max_position_value: Money::from_decimal(Decimal::new(100000000, 2)),
            max_portfolio_exposure: Decimal::new(95, 2),
            max_daily_loss: Money::from_decimal(Decimal::new(10000000, 2)),
            max_single_order_size: Quantity::from(5000i64),
        }
    }
}

/// What a risk check decides, with its text.
pub enum Verdict {
    Accepted,
    Rejected(Seq<char>),
    Warning(Seq<char>),
}

/// The result of a risk check.
#[derive(Debug, Clone)]
pub enum RiskResult {
    /// The order is accepted.
    Accepted,
    /// The order is rejected, with the reason.
    Rejected { reason: String },
    /// The order is accepted with a warning.
    Warning { message: String },
}

impl RiskResult {
    /// The decision and its text.
    pub open spec fn verdict(self) -> Verdict {
        match self {
            RiskResult::Accepted => Verdict::Accepted,
            RiskResult::Rejected { reason } => Verdict::Rejected(reason@),
            RiskResult::Warning { message } => Verdict::Warning(message@),
        }
    }

    /// Accepted, with or without a warning.
    pub fn is_accepted(&self) -> (r: bool)
        ensures
            r == !(self.verdict() is Rejected),
    {
        match self {
            RiskResult::Rejected { .. } => false,
            _ => true,
        }
    }

    /// Rejected.
    pub fn is_rejected(&self) -> (r: bool)
        ensures
            r == (self.verdict() is Rejected),
    {
        match self {
            RiskResult::Rejected { .. } => true,
            _ => false,
        }
    }

    /// The reason of a rejection.
    pub fn rejection_reason(&self) -> (r: Option<&str>)
        ensures
            match self.verdict() {
                Verdict::Rejected(reason) => r is Some && r->Some_0@ == reason,
                _ => r is None,
            },
    {
        match self {
            RiskResult::Rejected { reason } => Some(reason.as_str()),
            _ => None,
        }
    }
}

/// The order-size check: an order larger in magnitude than the single-order limit is rejected.
pub open spec fn order_size_verdict(config: RiskConfig, quantity: Quantity) -> Verdict {
    let max = config.max_single_order_size.dec();
    if abs_spec(quantity.dec()).val() > max.val() {
        Verdict::Rejected(
            "Order size "@ + dec_text(quantity.dec()) + " exceeds maximum allowed "@ + dec_text(max),
        )
    } else {
        Verdict::Accepted
    }
}

/// The position check: a new quantity larger in magnitude than the position
/// limit is rejected; so is a held position whose market value exceeds the
/// position value limit.
pub open spec fn position_verdict(config: RiskConfig, symbol: Symbol, new_quantity: Quantity, portfolio: Portfolio) -> Verdict {
    let max_size = config.max_position_size.dec();
    let max_value = config.max_position_value.dec();
    if abs_spec(new_quantity.dec()).val() > max_size.val() {
        Verdict::Rejected(
            "Position size "@ + dec_text(new_quantity.dec()) + " for "@ + symbol.text() + " exceeds maximum "@
                + dec_text(max_size),
        )
    } else {
        match portfolio.get_spec(symbol.text()) {
            Some(p) => match p.market_value_spec() {
                Some(v) => if v.val() > max_value.val() {
                    Verdict::Rejected("Position value "@ + money_text(v) + " exceeds maximum "@ + money_text(max_value))
                } else {
                    Verdict::Accepted
                },
                None => Verdict::Accepted,
            },
            None => Verdict::Accepted,
        }
    }
}

/// Total equity: cash plus the market value of the positions.
pub open spec fn equity(portfolio: Portfolio) -> Decimal {
    sum_spec(portfolio.cash_spec().dec(), value_sum(portfolio.entries()))
}

/// The share of equity held in positions.
pub open spec fn exposure(portfolio: Portfolio) -> Decimal {
    quotient_spec(value_sum(portfolio.entries()), equity(portfolio))
}

/// The exposure check: above the limit rejected, above 0.8 of the limit a
/// warning; a portfolio of zero equity is accepted.
pub open spec fn exposure_verdict(config: RiskConfig, portfolio: Portfolio) -> Verdict {
    let limit = config.max_portfolio_exposure;
    if equity(portfolio).val() == 0 {
        Verdict::Accepted
    } else if exposure(portfolio).val() > limit.val() {
        Verdict::Rejected(
            "Portfolio exposure "@ + percent_text(exposure(portfolio)) + "% exceeds maximum "@ + percent_text(limit)
                + "%"@,
        )
    } else if exposure(portfolio).val() > product_spec(limit, warning_fraction()).val() {
        Verdict::Warning("Portfolio exposure high at "@ + percent_text(exposure(portfolio)) + "%"@)
    } else {
        Verdict::Accepted
    }
}

/// The arithmetic of the exposure check stays within the decimal range.
pub open spec fn exposure_ok(config: RiskConfig, portfolio: Portfolio) -> bool {
    let limit = config.max_portfolio_exposure;
    &&& portfolio.value_ok()
    &&& sum_ok(portfolio.cash_spec().dec(), value_sum(portfolio.entries()))
    &&& equity(portfolio).val() != 0 ==> {
        &&& quotient_ok(value_sum(portfolio.entries()), equity(portfolio))
        &&& exposure(portfolio).val() > limit.val() ==> {
            &&& product_ok(exposure(portfolio), hundred())
            &&& product_ok(limit, hundred())
        }
        &&& exposure(portfolio).val() <= limit.val() ==> {
            &&& product_ok(limit, warning_fraction())
            &&& exposure(portfolio).val() > product_spec(limit, warning_fraction()).val() ==> product_ok(
                exposure(portfolio),
                hundred(),
            )
        }
    }
}

/// The daily loss check: a daily PnL below the negated loss limit is rejected.
pub open spec fn daily_loss_verdict(config: RiskConfig, daily_pnl: Decimal) -> Verdict {
    if daily_pnl.val() < neg_spec(config.max_daily_loss.dec()).val() {
        Verdict::Rejected(
            "Daily loss limit of "@ + money_text(config.max_daily_loss.dec()) + " exceeded. Current P&L: "@
                + money_text(daily_pnl),
        )
    } else {
        Verdict::Accepted
    }
}

/// Several checks together: the first rejection, else the first warning, else accepted.
pub open spec fn combined(checks: Seq<Verdict>) -> Verdict
    decreases checks.len(),
{
    if checks.len() == 0 {
        Verdict::Accepted
    } else {
        let rest = combined(checks.drop_first());
        if checks[0] is Rejected {
            checks[0]
        } else if rest is Rejected {
            rest
        } else if checks[0] is Warning {
            checks[0]
        } else {
            rest
        }
    }
}

/// A result is accepted exactly when it is not rejected (a warning is accepted).
pub proof fn lemma_accepted_iff_not_rejected(r: RiskResult)
    ensures
        !(r.verdict() is Rejected) <==> (r.verdict() is Accepted || r.verdict() is Warning),
{
}

/// Checks together reject exactly when one of them rejects, and then with
/// the first rejection; they warn exactly when none rejects and one warns,
/// and then with the first warning; otherwise they accept.
pub proof fn lemma_combined(checks: Seq<Verdict>)
    ensures
        combined(checks) is Rejected <==> exists|i: int| 0 <= i < checks.len() && #[trigger] checks[i] is Rejected,
        combined(checks) is Rejected ==> exists|i: int|
            0 <= i < checks.len() && combined(checks) == #[trigger] checks[i] && forall|j: int|
                0 <= j < i ==> !(#[trigger] checks[j] is Rejected),
        combined(checks) is Warning <==> (forall|i: int| 0 <= i < checks.len() ==> !(#[trigger] checks[i] is Rejected))
            && exists|i: int| 0 <= i < checks.len() && #[trigger] checks[i] is Warning,
        combined(checks) is Warning ==> exists|i: int|
            0 <= i < checks.len() && combined(checks) == #[trigger] checks[i] && forall|j: int|
                0 <= j < i ==> !(#[trigger] checks[j] is Warning),
    decreases checks.len(),
{
    if checks.len() > 0 {
        let rest = checks.drop_first();
        lemma_combined(rest);
        assert forall|i: int| 1 <= i < checks.len() implies #[trigger] checks[i] == rest[i - 1] by {}
        if exists|i: int| 0 <= i < checks.len() && #[trigger] checks[i] is Rejected {
            let i = choose|i: int| 0 <= i < checks.len() && #[trigger] checks[i] is Rejected;
            if i > 0 {
                assert(rest[i - 1] is Rejected);
            }
        }
        if combined(rest) is Rejected {
            let i = choose|i: int|
                0 <= i < rest.len() && combined(rest) == #[trigger] rest[i] && forall|j: int|
                    0 <= j < i ==> !(#[trigger] rest[j] is Rejected);
            if !(checks[0] is Rejected) {
                assert(combined(checks) == checks[i + 1]);
                assert forall|j: int| 0 <= j < i + 1 implies !(#[trigger] checks[j] is Rejected) by {
                    if j > 0 {
                        assert(checks[j] == rest[j - 1]);
                    }
                }
            }
        }
        if exists|i: int| 0 <= i < checks.len() && #[trigger] checks[i] is Warning {
            let i = choose|i: int| 0 <= i < checks.len() && #[trigger] checks[i] is Warning;
            if i > 0 {
                assert(rest[i - 1] is Warning);
            }
        }
        if combined(rest) is Warning {
            let i = choose|i: int|
                0 <= i < rest.len() && combined(rest) == #[trigger] rest[i] && forall|j: int|
                    0 <= j < i ==> !(#[trigger] rest[j] is Warning);
            if !(checks[0] is Warning) && !(checks[0] is Rejected) {
                assert(combined(checks) == checks[i + 1]);
                assert forall|j: int| 0 <= j < i + 1 implies !(#[trigger] checks[j] is Warning) by {
                    if j > 0 {
                        assert(checks[j] == rest[j - 1]);
                    }
                }
            }
        }
        if forall|i: int| 0 <= i < checks.len() ==> !(#[trigger] checks[i] is Rejected) {
            assert forall|i: int| 0 <= i < rest.len() implies !(#[trigger] rest[i] is Rejected) by {
                assert(checks[i + 1] == rest[i]);
            }
        }
    }
}

/// The order-size check rejects exactly the orders whose magnitude, bought
/// or sold, exceeds the single-order limit, and never warns.
pub proof fn lemma_order_size_check(config: RiskConfig, quantity: Quantity)
    requires
        quantity.dec().valid(),
    ensures
        order_size_verdict(config, quantity) is Rejected <==> abs_int(quantity.dec().val())
            > config.max_single_order_size.dec().val(),
        !(order_size_verdict(config, quantity) is Warning),
{
    lemma_abs_value(quantity.dec());
}

/// The position check rejects exactly when the new quantity's magnitude,
/// long or short, exceeds the position size limit, or the symbol's held
/// position has a market value above the position value limit; an oversized
/// quantity is reported as such, with its text. It never warns.
pub proof fn lemma_position_check(config: RiskConfig, symbol: Symbol, new_quantity: Quantity, portfolio: Portfolio)
    requires
        new_quantity.dec().valid(),
    ensures
        position_verdict(config, symbol, new_quantity, portfolio) is Rejected <==> (abs_int(new_quantity.dec().val())
            > config.max_position_size.dec().val() || (portfolio.get_spec(symbol.text()) is Some
            && portfolio.get_spec(symbol.text())->Some_0.market_value_spec() is Some && portfolio.get_spec(
            symbol.text(),
        )->Some_0.market_value_spec()->Some_0.val() > config.max_position_value.dec().val())),
        abs_int(new_quantity.dec().val()) > config.max_position_size.dec().val() ==> position_verdict(
            config,
            symbol,
            new_quantity,
            portfolio,
        ) == Verdict::Rejected(
            "Position size "@ + dec_text(new_quantity.dec()) + " for "@ + symbol.text() + " exceeds maximum "@
                + dec_text(config.max_position_size.dec()),
        ),
        !(position_verdict(config, symbol, new_quantity, portfolio) is Warning),
{
    lemma_abs_value(new_quantity.dec());
}

/// The daily loss check rejects exactly when the day's PnL is below the
/// negated loss limit, i.e. `pnl + limit < 0`, and never warns.
pub proof fn lemma_daily_loss_check(config: RiskConfig, daily_pnl: Decimal)
    requires
        config.max_daily_loss.dec().valid(),
    ensures
        daily_loss_verdict(config, daily_pnl) is Rejected <==> daily_pnl.val() + config.max_daily_loss.dec().val() < 0,
        !(daily_loss_verdict(config, daily_pnl) is Warning),
{
    let d = config.max_daily_loss.dec();
    let m = d.m() as int;
    let p = pow10((28 - d.s()) as nat);
    assert((-m) * p == -(m * p)) by (nonlinear_arith);
    Decimal::lemma_mk((-m) as i128, d.s());
    assert(neg_spec(d).val() == (-m) * p);
}

/// Risk checks under a configuration, with the day's PnL.
#[derive(Debug, Clone)]
pub struct RiskCheck {
    config: RiskConfig,
    daily_pnl: Money,
}

impl RiskCheck {
    pub closed spec fn config_spec(self) -> RiskConfig {
        self.config
    }

    pub closed spec fn daily_pnl_spec(self) -> Decimal {
        self.daily_pnl.dec()
    }

    /// A checker with the given limits and a daily PnL of zero.
    pub fn new(config: RiskConfig) -> (r: RiskCheck)
        ensures
            r.config_spec() == config,
            r.daily_pnl_spec() == Decimal::mk(0, 0),
    {
        RiskCheck { config, daily_pnl: Money::from_decimal(Decimal::zero()) }
    }

    fn text_of(d: Decimal) -> (r: String)
        ensures
            r@ == dec_text(d),
    {
        d.to_string()
    }

    fn money_string(d: Decimal) -> (r: String)
        ensures
            r@ == money_text(d),
    {
        Money::from_decimal(d).to_string()
    }

    fn percent_string(d: Decimal) -> (r: String)
        requires
            product_ok(d, hundred()),
        ensures
            r@ == percent_text(d),
    {
        d.times(Decimal::from_i64(100)).to_string_two_places()
    }

    /// Checks the size of a single order.
    pub fn check_order_size(&self, quantity: Quantity) -> (r: RiskResult)
        ensures
            r.verdict() == order_size_verdict(self.config_spec(), quantity),
            r.verdict() is Rejected <==> abs_int(quantity.dec().val()) > self.config_spec().max_single_order_size.dec().val(),
    {
        proof {
            use_type_invariant(&quantity.0);
            lemma_order_size_check(self.config, quantity);
        }
        let max = self.config.max_single_order_size;
        if quantity.abs().to_decimal().gt(&max.to_decimal()) {
            let mut reason = String::from_str("Order size ");
            reason.append(Self::text_of(quantity.to_decimal()).as_str());
            reason.append(" exceeds maximum allowed ");
            reason.append(Self::text_of(max.to_decimal()).as_str());
            proof {
                reveal_strlit("Order size ");
                reveal_strlit(" exceeds maximum allowed ");
            }
            return RiskResult::Rejected { reason };
        }
        RiskResult::Accepted
    }

    /// Checks the position size and the value of the position held.
    pub fn check_position_limits(&self, symbol: &Symbol, new_quantity: Quantity, portfolio: &Portfolio) -> (r: RiskResult)
        requires
            portfolio.get_spec(symbol.text()) matches Some(p) ==> p.market_value_ok(),
        ensures
            r.verdict() == position_verdict(self.config_spec(), *symbol, new_quantity, *portfolio),
            r.verdict() is Rejected <==> (abs_int(new_quantity.dec().val())
                > self.config_spec().max_position_size.dec().val() || (portfolio.get_spec(symbol.text()) is Some
                && portfolio.get_spec(symbol.text())->Some_0.market_value_spec() is Some && portfolio.get_spec(
                symbol.text(),
            )->Some_0.market_value_spec()->Some_0.val() > self.config_spec().max_position_value.dec().val())),
            abs_int(new_quantity.dec().val()) > self.config_spec().max_position_size.dec().val() ==> r.verdict()
                == Verdict::Rejected(
                "Position size "@ + dec_text(new_quantity.dec()) + " for "@ + symbol.text() + " exceeds maximum "@
                    + dec_text(self.config_spec().max_position_size.dec()),
            ),
    {
        proof {
            use_type_invariant(&new_quantity.0);
            lemma_position_check(self.config, *symbol, new_quantity, *portfolio);
        }
        let max_size = self.config.max_position_size;
        if new_quantity.abs().to_decimal().gt(&max_size.to_decimal()) {
            let mut reason = String::from_str("Position size ");
            reason.append(Self::text_of(new_quantity.to_decimal()).as_str());
            reason.append(" for ");
            reason.append(symbol.as_str());
            reason.append(" exceeds maximum ");
            reason.append(Self::text_of(max_size.to_decimal()).as_str());
            proof {
                reveal_strlit("Position size ");
                reveal_strlit(" for ");
                reveal_strlit(" exceeds maximum ");
            }
            return RiskResult::Rejected { reason };
        }
        match portfolio.position(symbol) {
            Some(position) => match position.market_value() {
                Some(market_value) => {
                    let max_value = self.config.max_position_value;
                    if market_value.to_decimal().gt(&max_value.to_decimal()) {
                        let mut reason = String::from_str("Position value ");
                        reason.append(Self::money_string(market_value.to_decimal()).as_str());
                        reason.append(" exceeds maximum ");
                        reason.append(Self::money_string(max_value.to_decimal()).as_str());
                        proof {
                            reveal_strlit("Position value ");
                            reveal_strlit(" exceeds maximum ");
                        }
                        return RiskResult::Rejected { reason };
                    }
                },
                None => {},
            },
            None => {},
        }
        RiskResult::Accepted
    }

    /// Checks the share of equity held in positions.
    pub fn check_portfolio_exposure(&self, portfolio: &Portfolio) -> (r: RiskResult)
        requires
            exposure_ok(self.config_spec(), *portfolio),
        ensures
            r.verdict() == exposure_verdict(self.config_spec(), *portfolio),
    {
        let total_equity = portfolio.total_equity();
        let positions_value = portfolio.positions_value();
        if total_equity.to_decimal().is_zero() {
            return RiskResult::Accepted;
        }
        let exposure = positions_value.to_decimal().over(total_equity.to_decimal());
        let limit = self.config.max_portfolio_exposure;
        if exposure.gt(&limit) {
            let mut reason = String::from_str("Portfolio exposure ");
            reason.append(Self::percent_string(exposure).as_str());
            reason.append("% exceeds maximum ");
            reason.append(Self::percent_string(limit).as_str());
            reason.append("%");
            proof {
                reveal_strlit("Portfolio exposure ");
                reveal_strlit("% exceeds maximum ");
                reveal_strlit("%");
            }
            RiskResult::Rejected { reason }
        } else if exposure.gt(&limit.times(Decimal::new(8, 1))) {
            let mut message = String::from_str("Portfolio exposure high at ");
            message.append(Self::percent_string(exposure).as_str());
            message.append("%");
            proof {
                reveal_strlit("Portfolio exposure high at ");
                reveal_strlit("%");
            }
            RiskResult::Warning { message }
        } else {
            RiskResult::Accepted
        }
    }

    /// Checks the day's PnL against the loss limit.
    pub fn check_daily_loss(&self) -> (r: RiskResult)
        ensures
            r.verdict() == daily_loss_verdict(self.config_spec(), self.daily_pnl_spec()),
            r.verdict() is Rejected <==> self.daily_pnl_spec().val() + self.config_spec().max_daily_loss.dec().val() < 0,
    {
        proof {
            use_type_invariant(&self.config.max_daily_loss.0);
            lemma_daily_loss_check(self.config, self.daily_pnl.dec());
        }
        let limit = self.config.max_daily_loss.to_decimal();
        if self.daily_pnl.to_decimal().lt(&limit.neg()) {
            let mut reason = String::from_str("Daily loss limit of ");
            reason.append(Self::money_string(limit).as_str());
            reason.append(" exceeded. Current P&L: ");
            reason.append(Self::money_string(self.daily_pnl.to_decimal()).as_str());
            proof {
                reveal_strlit("Daily loss limit of ");
                reveal_strlit(" exceeded. Current P&L: ");
            }
            return RiskResult::Rejected { reason };
        }
        RiskResult::Accepted
    }

    /// Adds `pnl` to the day's PnL.
    pub fn update_daily_pnl(&mut self, pnl: Money)
        requires
            sum_ok(old(self).daily_pnl_spec(), pnl.dec()),
        ensures
            final(self).daily_pnl_spec() == sum_spec(old(self).daily_pnl_spec(), pnl.dec()),
            final(self).config_spec() == old(self).config_spec(),
    {
        let current = self.daily_pnl.to_decimal();
        let new_pnl = current.plus(pnl.to_decimal());
        self.daily_pnl = Money::from_decimal(new_pnl);
    }

    /// The day's PnL.
    pub fn daily_pnl(&self) -> (r: Money)
        ensures
            r.dec() == self.daily_pnl_spec(),
    {
        self.daily_pnl
    }

    /// Runs every check: daily loss, order size, position limits, exposure.
    /// The first rejection wins, then the first warning.
    pub fn check_all(&self, symbol: &Symbol, quantity: Quantity, portfolio: &Portfolio) -> (r: RiskResult)
        requires
            portfolio.get_spec(symbol.text()) matches Some(p) ==> p.market_value_ok(),
            exposure_ok(self.config_spec(), *portfolio),
        ensures
            r.verdict() == combined(
                seq![
                    daily_loss_verdict(self.config_spec(), self.daily_pnl_spec()),
                    order_size_verdict(self.config_spec(), quantity),
                    position_verdict(self.config_spec(), *symbol, quantity, *portfolio),
                    exposure_verdict(self.config_spec(), *portfolio),
                ],
            ),
            r.verdict() is Rejected <==> ({
                let c = self.config_spec();
                let held = portfolio.get_spec(symbol.text());
                ||| self.daily_pnl_spec().val() + c.max_daily_loss.dec().val() < 0
                ||| abs_int(quantity.dec().val()) > c.max_single_order_size.dec().val()
                ||| abs_int(quantity.dec().val()) > c.max_position_size.dec().val()
                ||| (held is Some && held->Some_0.market_value_spec() is Some
                    && held->Some_0.market_value_spec()->Some_0.val() > c.max_position_value.dec().val())
                ||| (equity(*portfolio).val() != 0 && exposure(*portfolio).val() > c.max_portfolio_exposure.val())
            }),
    {
        let a = self.check_daily_loss();
        let b = self.check_order_size(quantity);
        let c = self.check_position_limits(symbol, quantity, portfolio);
        let d = self.check_portfolio_exposure(portfolio);
        let ghost s = seq![a.verdict(), b.verdict(), c.verdict(), d.verdict()];
        proof {
            lemma_combined(s);
            assert(s[0] == a.verdict() && s[1] == b.verdict() && s[2] == c.verdict() && s[3] == d.verdict());
            if a.verdict() is Rejected || b.verdict() is Rejected || c.verdict() is Rejected || d.verdict() is Rejected {
                if a.verdict() is Rejected {
                    assert(s[0] is Rejected);
                } else if b.verdict() is Rejected {
                    assert(s[1] is Rejected);
                } else if c.verdict() is Rejected {
                    assert(s[2] is Rejected);
                } else {
                    assert(s[3] is Rejected);
                }
            }
            assert(s.drop_first() =~= seq![b.verdict(), c.verdict(), d.verdict()]);
            assert(s.drop_first().drop_first() =~= seq![c.verdict(), d.verdict()]);
            assert(s.drop_first().drop_first().drop_first() =~= seq![d.verdict()]);
            assert(seq![d.verdict()].drop_first() =~= Seq::<Verdict>::empty());
            reveal_with_fuel(combined, 5);
        }
        if a.is_rejected() {
            return a;
        }
        if b.is_rejected() {
            return b;
        }
        if c.is_rejected() {
            return c;
        }
        if d.is_rejected() {
            return d;
        }
        match a {
            RiskResult::Warning { .. } => {
                return a;
            },
            _ => {},
        }
        match b {
            RiskResult::Warning { .. } => {
                return b;
            },
            _ => {},
        }
        match c {
            RiskResult::Warning { .. } => {
                return c;
            },
            _ => {},
        }
        match d {
            RiskResult::Warning { .. } => {
                return d;
            },
            _ => {},
        }
        RiskResult::Accepted
    }
}

} // verus!
