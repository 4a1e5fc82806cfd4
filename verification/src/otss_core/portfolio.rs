//! Portfolio and position accounting.
use crate::decimal::{
    difference_exact, lemma_difference_exact, lemma_sum_exact, sum_exact, abs_spec, difference_ok, difference_spec, product_ok, product_spec, sum_ok, sum_spec, zero_spec,
    Decimal,
};
use crate::otss_core::types::{Money, Price, Quantity, Symbol};
use vstd::prelude::*;

verus! {

/// A position in one instrument.
#[derive(Debug, Clone)]
pub struct Position {
    symbol: Symbol,
    quantity: Quantity,
    average_cost: Price,
    market_price: Option<Price>,
}

impl Position {
    pub closed spec fn symbol_spec(self) -> Symbol {
        self.symbol
    }

    pub closed spec fn quantity_spec(self) -> Quantity {
        self.quantity
    }

    pub closed spec fn average_cost_spec(self) -> Price {
        self.average_cost
    }

    pub closed spec fn market_price_spec(self) -> Option<Price> {
        self.market_price
    }

    /// Unrealized PnL at the market price: `(market - cost) * quantity`.
    pub open spec fn unrealized_spec(self) -> Option<Decimal> {
        match self.market_price_spec() {
            Some(m) => Some(
                product_spec(difference_spec(m.dec(), self.average_cost_spec().dec()), self.quantity_spec().dec()),
            ),
            None => None,
        }
    }

    /// Market value: `market * |quantity|`.
    pub open spec fn market_value_spec(self) -> Option<Decimal> {
        match self.market_price_spec() {
            Some(m) => Some(product_spec(m.dec(), abs_spec(self.quantity_spec().dec()))),
            None => None,
        }
    }

    /// The unrealized PnL stays within the decimal range.
    pub open spec fn unrealized_ok(self) -> bool {
        match self.market_price_spec() {
            Some(m) => {
                &&& difference_ok(m.dec(), self.average_cost_spec().dec())
                &&& product_ok(difference_spec(m.dec(), self.average_cost_spec().dec()), self.quantity_spec().dec())
            },
            None => true,
        }
    }

    /// The market value stays within the decimal range.
    pub open spec fn market_value_ok(self) -> bool {
        match self.market_price_spec() {
            Some(m) => product_ok(m.dec(), abs_spec(self.quantity_spec().dec())),
            None => true,
        }
    }

    /// A position without a market price.
    pub fn new(symbol: Symbol, quantity: Quantity, average_cost: Price) -> (r: Position)
        ensures
            r.symbol_spec() == symbol,
            r.quantity_spec() == quantity,
            r.average_cost_spec() == average_cost,
            r.market_price_spec() is None,
    {
        Position { symbol, quantity, average_cost, market_price: None }
    }

    /// The symbol.
    pub fn symbol(&self) -> (r: &Symbol)
        ensures
            *r == self.symbol_spec(),
    {
        &self.symbol
    }

    /// The quantity (positive long, negative short).
    pub fn quantity(&self) -> (r: Quantity)
        ensures
            r == self.quantity_spec(),
    {
        self.quantity
    }

    /// Whether the position is long.
    pub fn is_long(&self) -> (r: bool)
        ensures
            r == (self.quantity_spec().dec().val() > 0),
    {
        self.quantity.is_positive()
    }

    /// Whether the position is short.
    pub fn is_short(&self) -> (r: bool)
        ensures
            r == (self.quantity_spec().dec().val() < 0),
    {
        !self.quantity.is_zero() && !self.quantity.is_positive()
    }

    /// The average cost.
    pub fn average_cost(&self) -> (r: Price)
        ensures
            r == self.average_cost_spec(),
    {
        self.average_cost
    }

    /// Sets the market price.
    pub fn update_market_price(&mut self, price: Price)
        ensures
            final(self).market_price_spec() == Some(price),
            final(self).symbol_spec() == old(self).symbol_spec(),
            final(self).quantity_spec() == old(self).quantity_spec(),
            final(self).average_cost_spec() == old(self).average_cost_spec(),
    {
        self.market_price = Some(price);
    }

    /// Unrealized PnL at the market price, if one is set.
    pub fn unrealized_pnl(&self) -> (r: Option<Money>)
        requires
            self.unrealized_ok(),
        ensures
            r is Some <==> self.unrealized_spec() is Some,
            r is Some ==> r->Some_0.dec() == self.unrealized_spec()->Some_0,
    {
        match self.market_price {
            Some(market) => {
                let qty = self.quantity.to_decimal();
                let cost = self.average_cost.to_decimal();
                let price_diff = market.to_decimal().minus(cost);
                Some(Money::from_decimal(price_diff.times(qty)))
            },
            None => None,
        }
    }

    /// Market value at the market price, if one is set.
    pub fn market_value(&self) -> (r: Option<Money>)
        requires
            self.market_value_ok(),
        ensures
            r is Some <==> self.market_value_spec() is Some,
            r is Some ==> r->Some_0.dec() == self.market_value_spec()->Some_0,
    {
        match self.market_price {
            Some(price) => Some(Money::from_trade(price, self.quantity.abs())),
            None => None,
        }
    }

    /// Cost basis: `average_cost * |quantity|`.
    pub fn cost_basis(&self) -> (r: Money)
        requires
            product_ok(self.average_cost_spec().dec(), abs_spec(self.quantity_spec().dec())),
        ensures
            r.dec() == product_spec(self.average_cost_spec().dec(), abs_spec(self.quantity_spec().dec())),
    {
        Money::from_trade(self.average_cost, self.quantity.abs())
    }
}

/// `i` is the first entry with key `key`.
pub open spec fn is_first(s: Seq<(String, Position)>, key: Seq<char>, i: int) -> bool {
    &&& 0 <= i < s.len()
    &&& s[i].0@ == key
    &&& forall|j: int| 0 <= j < i ==> #[trigger] s[j].0@ != key
}

/// The position stored under `key`: the first entry with that key.
pub open spec fn entry_of(s: Seq<(String, Position)>, key: Seq<char>) -> Option<Position> {
    if exists|i: int| is_first(s, key, i) {
        Some(s[choose|i: int| is_first(s, key, i)].1)
    } else {
        None
    }
}

/// The position stored under `key` is that of the first entry with `key`.
pub proof fn lemma_first_unique(s: Seq<(String, Position)>, key: Seq<char>, i: int)
    requires
        is_first(s, key, i),
    ensures
        entry_of(s, key) == Some(s[i].1),
{
    let j = choose|j: int| is_first(s, key, j);
    assert(is_first(s, key, j));
    if j < i {
        assert(s[j].0@ != key);
    }
    if i < j {
        assert(s[i].0@ != key);
    }
}

/// Replacing the position of the first entry with `key` stores the new position under `key`.
pub proof fn lemma_replace_first(s: Seq<(String, Position)>, key: Seq<char>, i: int)
    requires
        is_first(s, key, i),
    ensures
        forall|p: Position| entry_of(#[trigger] s.update(i, (s[i].0, p)), key) == Some(p),
{
    assert forall|p: Position| entry_of(#[trigger] s.update(i, (s[i].0, p)), key) == Some(p) by {
        let t = s.update(i, (s[i].0, p));
        assert(is_first(t, key, i));
        lemma_first_unique(t, key, i);
    }
}

/// Where no entry has `key`, nothing is stored under it.
pub proof fn lemma_no_entry(s: Seq<(String, Position)>, key: Seq<char>)
    requires
        forall|j: int| 0 <= j < s.len() ==> #[trigger] s[j].0@ != key,
    ensures
        entry_of(s, key) is None,
{
    if exists|i: int| is_first(s, key, i) {
        let i = choose|i: int| is_first(s, key, i);
        assert(s[i].0@ == key);
    }
}

/// Replacing the position of the first entry with `key`, by any position,
/// keeps every key and changes no other key's position.
pub proof fn lemma_replace_first_any(s: Seq<(String, Position)>, key: Seq<char>, i: int)
    requires
        is_first(s, key, i),
    ensures
        forall|p: Position, k: Seq<char>|
            k != key ==> #[trigger] entry_of(s.update(i, (s[i].0, p)), k) == entry_of(s, k),
        forall|p: Position, j: int| 0 <= j < s.len() ==> (#[trigger] s.update(i, (s[i].0, p))[j]).0 == s[j].0,
{
    assert forall|p: Position, k: Seq<char>| k != key implies #[trigger] entry_of(s.update(i, (s[i].0, p)), k)
        == entry_of(s, k) by {
        lemma_replace_first_others(s, key, i, p);
    }
}

/// Replacing the position of the first entry with `key` changes no other key's position.
pub proof fn lemma_replace_first_others(s: Seq<(String, Position)>, key: Seq<char>, i: int, p: Position)
    requires
        is_first(s, key, i),
    ensures
        forall|k: Seq<char>| k != key ==> entry_of(s.update(i, (s[i].0, p)), k) == #[trigger] entry_of(s, k),
{
    let t = s.update(i, (s[i].0, p));
    assert forall|k: Seq<char>| k != key implies entry_of(t, k) == #[trigger] entry_of(s, k) by {
        if exists|j: int| is_first(s, k, j) {
            let j = choose|j: int| is_first(s, k, j);
            assert(j != i);
            assert(is_first(t, k, j));
            lemma_first_unique(s, k, j);
            lemma_first_unique(t, k, j);
        } else {
            lemma_no_entry_rev(s, k);
            assert forall|j: int| 0 <= j < t.len() implies #[trigger] t[j].0@ != k by {
                assert(s[j].0@ != k);
            }
            lemma_no_entry(t, k);
        }
    }
}

/// Where no entry is first with `key`, none has it.
pub proof fn lemma_no_entry_rev(s: Seq<(String, Position)>, key: Seq<char>)
    requires
        !exists|i: int| is_first(s, key, i),
    ensures
        forall|j: int| 0 <= j < s.len() ==> #[trigger] s[j].0@ != key,
        entry_of(s, key) is None,
    decreases s.len(),
{
    if s.len() > 0 {
        let t = s.drop_last();
        assert(!exists|i: int| is_first(t, key, i)) by {
            if exists|i: int| is_first(t, key, i) {
                let i = choose|i: int| is_first(t, key, i);
                assert forall|q: int| 0 <= q < i implies #[trigger] s[q].0@ != key by {
                    assert(t[q] == s[q]);
                }
                assert(t[i] == s[i]);
                assert(is_first(s, key, i));
            }
        }
        lemma_no_entry_rev(t, key);
        assert forall|j: int| 0 <= j < s.len() implies #[trigger] s[j].0@ != key by {
            if j < s.len() - 1 {
                assert(t[j] == s[j]);
            } else {
                if s[j].0@ == key {
                    assert forall|q: int| 0 <= q < j implies #[trigger] s[q].0@ != key by {
                        assert(t[q] == s[q]);
                    }
                    assert(is_first(s, key, j));
                }
            }
        }
    }
}

/// Appending an entry under a key that no entry has adds that key alone.
pub proof fn lemma_push_new(s: Seq<(String, Position)>, key: String, p: Position)
    requires
        forall|j: int| 0 <= j < s.len() ==> #[trigger] s[j].0@ != key@,
    ensures
        entry_of(s.push((key, p)), key@) == Some(p),
        forall|k: Seq<char>| k != key@ ==> entry_of(s.push((key, p)), k) == #[trigger] entry_of(s, k),
{
    let t = s.push((key, p));
    assert(is_first(t, key@, s.len() as int)) by {
        assert forall|j: int| 0 <= j < s.len() implies #[trigger] t[j].0@ != key@ by {
            assert(t[j] == s[j]);
        }
    }
    lemma_first_unique(t, key@, s.len() as int);
    assert forall|k: Seq<char>| k != key@ implies entry_of(t, k) == #[trigger] entry_of(s, k) by {
        if exists|j: int| is_first(s, k, j) {
            let j = choose|j: int| is_first(s, k, j);
            assert forall|q: int| 0 <= q < j implies #[trigger] t[q].0@ != k by {
                assert(t[q] == s[q]);
                assert(s[q].0@ != k);
            }
            assert(t[j] == s[j]);
            assert(is_first(t, k, j));
            lemma_first_unique(s, k, j);
            lemma_first_unique(t, k, j);
        } else {
            lemma_no_entry_rev(s, k);
            assert forall|j: int| 0 <= j < t.len() implies #[trigger] t[j].0@ != k by {
                if j < s.len() {
                    assert(t[j] == s[j]);
                }
            }
            lemma_no_entry(t, k);
        }
    }
}

/// No two entries share a key.
pub open spec fn keys_distinct(s: Seq<(String, Position)>) -> bool {
    forall|i: int, j: int| 0 <= i < s.len() && 0 <= j < s.len() && i != j ==> #[trigger] s[i].0@ != #[trigger] s[j].0@
}

/// Sum, in order, of the market values of the positions that have a price.
pub open spec fn value_sum(s: Seq<(String, Position)>) -> Decimal
    decreases s.len(),
{
    if s.len() == 0 {
        zero_spec()
    } else {
        match s.last().1.market_value_spec() {
            Some(v) => sum_spec(value_sum(s.drop_last()), v),
            None => value_sum(s.drop_last()),
        }
    }
}

/// Sum, in order, of the unrealized PnL of the positions that have a price.
pub open spec fn unrealized_sum(s: Seq<(String, Position)>) -> Decimal
    decreases s.len(),
{
    if s.len() == 0 {
        zero_spec()
    } else {
        match s.last().1.unrealized_spec() {
            Some(v) => sum_spec(unrealized_sum(s.drop_last()), v),
            None => unrealized_sum(s.drop_last()),
        }
    }
}

/// Adding an amount to the cash and then removing it again leaves the cash's
/// value as it was (where neither step rounds).
pub proof fn lemma_cash_round_trip(cash: Money, amount: Money)
    requires
        cash.dec().valid(),
        amount.dec().valid(),
        sum_exact(cash.dec(), amount.dec()),
        difference_exact(sum_spec(cash.dec(), amount.dec()), amount.dec()),
    ensures
        difference_spec(sum_spec(cash.dec(), amount.dec()), amount.dec()).val() == cash.dec().val(),
{
    lemma_sum_exact(cash.dec(), amount.dec());
    lemma_difference_exact(sum_spec(cash.dec(), amount.dec()), amount.dec());
}

/// A trading portfolio: positions keyed by symbol text, and cash.
#[derive(Debug)]
pub struct Portfolio {
    positions: Vec<(String, Position)>,
    cash: Money,
    total_equity: Money,
}

impl Portfolio {
    /// The positions with their keys, in insertion order.
    pub closed spec fn entries(self) -> Seq<(String, Position)> {
        self.positions@
    }

    pub closed spec fn cash_spec(self) -> Money {
        self.cash
    }

    /// Well-formed: no symbol is held twice, as keys of a map.
    pub open spec fn wf(self) -> bool {
        keys_distinct(self.entries())
    }

    /// The position of `symbol`, if any.
    pub open spec fn get_spec(self, symbol: Seq<char>) -> Option<Position> {
        entry_of(self.entries(), symbol)
    }

    /// Every position's market value, and their running sum, stay within the decimal range.
    pub open spec fn value_ok(self) -> bool {
        forall|i: int|
            0 <= i < self.entries().len() ==> {
                &&& (#[trigger] self.entries()[i]).1.market_value_ok()
                &&& match self.entries()[i].1.market_value_spec() {
                    Some(v) => sum_ok(value_sum(self.entries().take(i)), v),
                    None => true,
                }
            }
    }

    /// Every position's unrealized PnL, and their running sum, stay within the decimal range.
    pub open spec fn unrealized_ok(self) -> bool {
        forall|i: int|
            0 <= i < self.entries().len() ==> {
                &&& (#[trigger] self.entries()[i]).1.unrealized_ok()
                &&& match self.entries()[i].1.unrealized_spec() {
                    Some(v) => sum_ok(unrealized_sum(self.entries().take(i)), v),
                    None => true,
                }
            }
    }

    /// A portfolio holding `initial_cash` and no positions.
    pub fn with_cash(initial_cash: Money) -> (r: Portfolio)
        ensures
            r.entries() == Seq::<(String, Position)>::empty(),
            r.cash_spec() == initial_cash,
            r.wf(),
    {
        Portfolio { positions: Vec::new(), cash: initial_cash, total_equity: initial_cash }
    }

    fn find(&self, key: &str) -> (r: Option<usize>)
        ensures
            match r {
                Some(i) => is_first(self.entries(), key@, i as int),
                None => forall|j: int| 0 <= j < self.entries().len() ==> #[trigger] self.entries()[j].0@ != key@,
            },
    {
        let target = String::from_str(key);
        let mut i: usize = 0;
        while i < self.positions.len()
            invariant
                i <= self.positions@.len(),
                target@ == key@,
                forall|j: int| 0 <= j < i ==> #[trigger] self.positions@[j].0@ != key@,
            decreases self.positions@.len() - i,
        {
            if self.positions[i].0 == target {
                return Some(i);
            }
            i = i + 1;
        }
        None
    }

    /// The position of `symbol`, if any.
    pub fn position(&self, symbol: &Symbol) -> (r: Option<&Position>)
        ensures
            r is Some <==> self.get_spec(symbol.text()) is Some,
            r is Some ==> *r->Some_0 == self.get_spec(symbol.text())->Some_0,
    {
        match self.find(symbol.as_str()) {
            Some(i) => {
                proof {
                    lemma_first_unique(self.entries(), symbol.text(), i as int);
                }
                Some(&self.positions[i].1)
            },
            None => {
                proof {
                    lemma_no_entry(self.entries(), symbol.text());
                }
                None
            },
        }
    }

    /// The position of `symbol`, for update, if any.
    pub fn position_mut(&mut self, symbol: &Symbol) -> (r: Option<&mut Position>)
        ensures
            r is Some <==> old(self).get_spec(symbol.text()) is Some,
            r is None ==> *final(self) == *old(self),
            r is Some ==> {
                &&& *r->Some_0 == old(self).get_spec(symbol.text())->Some_0
                &&& final(self).get_spec(symbol.text()) == Some(*final(r->Some_0))
                &&& forall|k: Seq<char>|
                    k != symbol.text() ==> #[trigger] final(self).get_spec(k) == old(self).get_spec(k)
                &&& final(self).entries().len() == old(self).entries().len()
                &&& forall|j: int|
                    0 <= j < old(self).entries().len() ==> #[trigger] final(self).entries()[j].0 == old(
                        self,
                    ).entries()[j].0
                &&& final(self).cash_spec() == old(self).cash_spec()
            },
            old(self).wf() ==> final(self).wf(),
    {
        match self.find(symbol.as_str()) {
            Some(i) => {
                proof {
                    lemma_first_unique(self.entries(), symbol.text(), i as int);
                    lemma_replace_first(self.entries(), symbol.text(), i as int);
                    lemma_replace_first_any(self.entries(), symbol.text(), i as int);
                }
                let entry = vstd::std_specs::vec::vec_index_mut(&mut self.positions, i);
                Some(&mut entry.1)
            },
            None => {
                proof {
                    lemma_no_entry(self.entries(), symbol.text());
                }
                None
            },
        }
    }

    /// Adds `position` under its symbol, replacing the position held there.
    pub fn update_position(&mut self, position: Position)
        ensures
            final(self).get_spec(position.symbol_spec().text()) == Some(position),
            forall|k: Seq<char>|
                k != position.symbol_spec().text() ==> #[trigger] final(self).get_spec(k) == old(self).get_spec(k),
            final(self).cash_spec() == old(self).cash_spec(),
            old(self).wf() ==> final(self).wf(),
    {
        let key = position.symbol().as_str().to_string();
        match self.find(key.as_str()) {
            Some(i) => {
                proof {
                    lemma_replace_first(self.entries(), key@, i as int);
                    lemma_replace_first_others(self.entries(), key@, i as int, position);
                }
                let entry = vstd::std_specs::vec::vec_index_mut(&mut self.positions, i);
                entry.1 = position;
            },
            None => {
                proof {
                    lemma_push_new(self.entries(), key, position);
                }
                self.positions.push((key, position));
            },
        }
    }

    /// The positions, in insertion order.
    pub fn positions(&self) -> (r: Vec<&Position>)
        ensures
            r@.len() == self.entries().len(),
            forall|i: int| 0 <= i < r@.len() ==> *#[trigger] r@[i] == self.entries()[i].1,
    {
        let mut out: Vec<&Position> = Vec::new();
        let mut i: usize = 0;
        while i < self.positions.len()
            invariant
                i <= self.positions@.len(),
                out@.len() == i,
                forall|j: int| 0 <= j < i ==> *#[trigger] out@[j] == self.positions@[j].1,
            decreases self.positions@.len() - i,
        {
            out.push(&self.positions[i].1);
            i = i + 1;
        }
        out
    }

    /// Available cash.
    pub fn cash(&self) -> (r: Money)
        ensures
            r == self.cash_spec(),
    {
        self.cash
    }

    /// Adds `amount` to the cash.
    pub fn add_cash(&mut self, amount: Money)
        requires
            sum_ok(old(self).cash_spec().dec(), amount.dec()),
        ensures
            final(self).cash_spec().dec() == sum_spec(old(self).cash_spec().dec(), amount.dec()),
            final(self).entries() == old(self).entries(),
            old(self).wf() ==> final(self).wf(),
    {
        self.cash = self.cash + amount;
    }

    /// Takes `amount` from the cash.
    pub fn remove_cash(&mut self, amount: Money)
        requires
            difference_ok(old(self).cash_spec().dec(), amount.dec()),
        ensures
            final(self).cash_spec().dec() == difference_spec(old(self).cash_spec().dec(), amount.dec()),
            final(self).entries() == old(self).entries(),
            old(self).wf() ==> final(self).wf(),
    {
        self.cash = self.cash - amount;
    }

    /// Sum of the market values of the positions that have a market price.
    pub fn positions_value(&self) -> (r: Money)
        requires
            self.value_ok(),
        ensures
            r.dec() == value_sum(self.entries()),
    {
        let mut acc = Money::from_decimal(Decimal::zero());
        let mut i: usize = 0;
        while i < self.positions.len()
            invariant
                i <= self.positions@.len(),
                self.value_ok(),
                acc.dec() == value_sum(self.entries().take(i as int)),
            decreases self.positions@.len() - i,
        {
            assert(self.entries().take(i as int + 1).drop_last() =~= self.entries().take(i as int));
            assert(self.entries().take(i as int + 1).last() == self.entries()[i as int]);
            assert(self.entries()[i as int].1.market_value_ok());
            match self.positions[i].1.market_value() {
                Some(v) => {
                    acc = acc + v;
                },
                None => {},
            }
            i = i + 1;
        }
        assert(self.entries().take(i as int) =~= self.entries());
        acc
    }

    /// Cash plus the market value of the positions.
    pub fn total_equity(&self) -> (r: Money)
        requires
            self.value_ok(),
            sum_ok(self.cash_spec().dec(), value_sum(self.entries())),
        ensures
            r.dec() == sum_spec(self.cash_spec().dec(), value_sum(self.entries())),
    {
        self.cash + self.positions_value()
    }

    /// Sum of the unrealized PnL of the positions that have a market price.
    pub fn total_unrealized_pnl(&self) -> (r: Money)
        requires
            self.unrealized_ok(),
        ensures
            r.dec() == unrealized_sum(self.entries()),
    {
        let mut acc = Money::from_decimal(Decimal::zero());
        let mut i: usize = 0;
        while i < self.positions.len()
            invariant
                i <= self.positions@.len(),
                self.unrealized_ok(),
                acc.dec() == unrealized_sum(self.entries().take(i as int)),
            decreases self.positions@.len() - i,
        {
            assert(self.entries().take(i as int + 1).drop_last() =~= self.entries().take(i as int));
            assert(self.entries().take(i as int + 1).last() == self.entries()[i as int]);
            assert(self.entries()[i as int].1.unrealized_ok());
            match self.positions[i].1.unrealized_pnl() {
                Some(v) => {
                    acc = acc + v;
                },
                None => {},
            }
            i = i + 1;
        }
        assert(self.entries().take(i as int) =~= self.entries());
        acc
    }

    /// The number of positions.
    pub fn position_count(&self) -> (r: usize)
        ensures
            r == self.entries().len(),
    {
        self.positions.len()
    }
}

impl Default for Portfolio {
    fn default() -> (r: Portfolio)
        ensures
            r.entries() == Seq::<(String, Position)>::empty(),
            r.cash_spec().dec() == zero_spec(),
            r.wf(),
    {
        Portfolio::with_cash(Money::from_decimal(Decimal::zero()))
    }
}

} // verus!
