//! Financial value types: prices, quantities, symbols and money.
use crate::decimal::{
    abs_spec, decimal_parse, decimal_text, decimal_text_two_places, difference_ok, difference_spec,
    product_ok, product_spec, sum_ok, sum_spec, zero_spec, Decimal, DecimalError,
};
use vstd::prelude::*;
use vstd::std_specs::cmp::PartialEqSpecImpl;
use vstd::std_specs::convert::FromSpecImpl;
use vstd::std_specs::ops::{AddSpecImpl, MulSpecImpl, SubSpecImpl};

verus! {

/// A price, as a decimal.
#[derive(Debug, Clone, Copy)]
pub struct Price(pub Decimal);

impl Price {
    /// The decimal value.
    pub open spec fn dec(self) -> Decimal {
        self.0
    }

    /// Parses a price.
    pub fn from_str(amount: &str) -> (r: Result<Price, DecimalError>)
        ensures
            r is Ok <==> decimal_parse(amount@) is Some,
            r is Ok ==> r->Ok_0.dec() == Decimal::from_pair(decimal_parse(amount@)->Some_0),
    {
        match Decimal::parse(amount) {
            Ok(d) => Ok(Price(d)),
            Err(e) => Err(e),
        }
    }

    /// The decimal value.
    pub fn to_decimal(&self) -> (r: Decimal)
        ensures
            r == self.dec(),
    {
        self.0
    }

    /// Zero.
    pub fn zero() -> (r: Price)
        ensures
            r.dec() == zero_spec(),
    {
        Price(Decimal::zero())
    }

    /// Whether the price is zero.
    pub fn is_zero(&self) -> (r: bool)
        ensures
            r == (self.dec().val() == 0),
    {
        self.0.is_zero()
    }

    /// The display text.
    pub fn to_string(&self) -> (r: String)
        ensures
            r@ == decimal_text(self.dec().m(), self.dec().s()),
    {
        self.0.to_string()
    }
}

impl PartialEq for Price {
    fn eq(&self, other: &Price) -> (r: bool) {
        self.0 == other.0
    }
}

impl PartialEqSpecImpl for Price {
    open spec fn obeys_eq_spec() -> bool {
        true
    }

    open spec fn eq_spec(&self, other: &Price) -> bool {
        self.0.val() == other.0.val()
    }
}

impl From<Decimal> for Price {
    fn from(d: Decimal) -> (r: Price) {
        Price(d)
    }
}

impl FromSpecImpl<Decimal> for Price {
    open spec fn obeys_from_spec() -> bool {
        true
    }

    open spec fn from_spec(d: Decimal) -> Price {
        Price(d)
    }
}

impl core::ops::Add for Price {
    type Output = Price;

    fn add(self, rhs: Price) -> (r: Price) {
        Price(self.0.plus(rhs.0))
    }
}

impl AddSpecImpl for Price {
    open spec fn obeys_add_spec() -> bool {
        true
    }

    open spec fn add_req(self, rhs: Price) -> bool {
        sum_ok(self.0, rhs.0)
    }

    open spec fn add_spec(self, rhs: Price) -> Price {
        Price(sum_spec(self.0, rhs.0))
    }
}

impl core::ops::Sub for Price {
    type Output = Price;

    fn sub(self, rhs: Price) -> (r: Price) {
        Price(self.0.minus(rhs.0))
    }
}

impl SubSpecImpl for Price {
    open spec fn obeys_sub_spec() -> bool {
        true
    }

    open spec fn sub_req(self, rhs: Price) -> bool {
        difference_ok(self.0, rhs.0)
    }

    open spec fn sub_spec(self, rhs: Price) -> Price {
        Price(difference_spec(self.0, rhs.0))
    }
}

impl core::ops::Mul for Price {
    type Output = Price;

    fn mul(self, rhs: Price) -> (r: Price) {
        Price(self.0.times(rhs.0))
    }
}

impl MulSpecImpl for Price {
    open spec fn obeys_mul_spec() -> bool {
        true
    }

    open spec fn mul_req(self, rhs: Price) -> bool {
        product_ok(self.0, rhs.0)
    }

    open spec fn mul_spec(self, rhs: Price) -> Price {
        Price(product_spec(self.0, rhs.0))
    }
}

impl core::ops::Mul<Decimal> for Price {
    type Output = Price;

    fn mul(self, rhs: Decimal) -> (r: Price) {
        Price(self.0.times(rhs))
    }
}

impl MulSpecImpl<Decimal> for Price {
    open spec fn obeys_mul_spec() -> bool {
        true
    }

    open spec fn mul_req(self, rhs: Decimal) -> bool {
        product_ok(self.0, rhs)
    }

    open spec fn mul_spec(self, rhs: Decimal) -> Price {
        Price(product_spec(self.0, rhs))
    }
}

/// A quantity, as a decimal.
#[derive(Debug, Clone, Copy)]
pub struct Quantity(pub Decimal);

impl Quantity {
    /// The decimal value.
    pub open spec fn dec(self) -> Decimal {
        self.0
    }

    /// Parses a quantity.
    pub fn from_str(amount: &str) -> (r: Result<Quantity, DecimalError>)
        ensures
            r is Ok <==> decimal_parse(amount@) is Some,
            r is Ok ==> r->Ok_0.dec() == Decimal::from_pair(decimal_parse(amount@)->Some_0),
    {
        match Decimal::parse(amount) {
            Ok(d) => Ok(Quantity(d)),
            Err(e) => Err(e),
        }
    }

    /// The decimal value.
    pub fn to_decimal(&self) -> (r: Decimal)
        ensures
            r == self.dec(),
    {
        self.0
    }

    /// Zero.
    pub fn zero() -> (r: Quantity)
        ensures
            r.dec() == zero_spec(),
    {
        Quantity(Decimal::zero())
    }

    /// Whether the quantity is zero.
    pub fn is_zero(&self) -> (r: bool)
        ensures
            r == (self.dec().val() == 0),
    {
        self.0.is_zero()
    }

    /// Whether the quantity is positive (non-negative sign and not zero).
    pub fn is_positive(&self) -> (r: bool)
        ensures
            r == (self.dec().val() > 0),
    {
        self.0.is_sign_positive() && !self.0.is_zero()
    }

    /// The absolute value.
    pub fn abs(&self) -> (r: Quantity)
        ensures
            r.dec() == abs_spec(self.dec()),
    {
        Quantity(self.0.abs())
    }

    /// The display text.
    pub fn to_string(&self) -> (r: String)
        ensures
            r@ == decimal_text(self.dec().m(), self.dec().s()),
    {
        self.0.to_string()
    }
}

impl PartialEq for Quantity {
    fn eq(&self, other: &Quantity) -> (r: bool) {
        self.0 == other.0
    }
}

impl PartialEqSpecImpl for Quantity {
    open spec fn obeys_eq_spec() -> bool {
        true
    }

    open spec fn eq_spec(&self, other: &Quantity) -> bool {
        self.0.val() == other.0.val()
    }
}

impl From<Decimal> for Quantity {
    fn from(d: Decimal) -> (r: Quantity) {
        Quantity(d)
    }
}

impl FromSpecImpl<Decimal> for Quantity {
    open spec fn obeys_from_spec() -> bool {
        true
    }

    open spec fn from_spec(d: Decimal) -> Quantity {
        Quantity(d)
    }
}

impl From<i64> for Quantity {
    fn from(i: i64) -> (r: Quantity) {
        Quantity(Decimal::from_i64(i))
    }
}

impl FromSpecImpl<i64> for Quantity {
    open spec fn obeys_from_spec() -> bool {
        true
    }

    open spec fn from_spec(i: i64) -> Quantity {
        Quantity(Decimal::mk(i as i128, 0))
    }
}

impl core::ops::Add for Quantity {
    type Output = Quantity;

    fn add(self, rhs: Quantity) -> (r: Quantity) {
        Quantity(self.0.plus(rhs.0))
    }
}

impl AddSpecImpl for Quantity {
    open spec fn obeys_add_spec() -> bool {
        true
    }

    open spec fn add_req(self, rhs: Quantity) -> bool {
        sum_ok(self.0, rhs.0)
    }

    open spec fn add_spec(self, rhs: Quantity) -> Quantity {
        Quantity(sum_spec(self.0, rhs.0))
    }
}

impl core::ops::Sub for Quantity {
    type Output = Quantity;

    fn sub(self, rhs: Quantity) -> (r: Quantity) {
        Quantity(self.0.minus(rhs.0))
    }
}

impl SubSpecImpl for Quantity {
    open spec fn obeys_sub_spec() -> bool {
        true
    }

    open spec fn sub_req(self, rhs: Quantity) -> bool {
        difference_ok(self.0, rhs.0)
    }

    open spec fn sub_spec(self, rhs: Quantity) -> Quantity {
        Quantity(difference_spec(self.0, rhs.0))
    }
}

impl core::ops::Mul<Decimal> for Quantity {
    type Output = Quantity;

    fn mul(self, rhs: Decimal) -> (r: Quantity) {
        Quantity(self.0.times(rhs))
    }
}

impl MulSpecImpl<Decimal> for Quantity {
    open spec fn obeys_mul_spec() -> bool {
        true
    }

    open spec fn mul_req(self, rhs: Decimal) -> bool {
        product_ok(self.0, rhs)
    }

    open spec fn mul_spec(self, rhs: Decimal) -> Quantity {
        Quantity(product_spec(self.0, rhs))
    }
}

/// What `str::to_uppercase` returns for this text.
pub uninterp spec fn uppercase(text: Seq<char>) -> Seq<char>;

/// ASCII upper case: `a`..`z` become `A`..`Z`, all else stays.
pub open spec fn ascii_upper(text: Seq<char>) -> Seq<char> {
    text.map_values(|c: char| if 'a' <= c && c <= 'z' { ((c as u8) - 32) as char } else { c })
}

/// `str::to_uppercase`: by name; on ASCII text, the ASCII upper case, as the
/// Unicode upper-case mapping gives for those characters.
#[verifier::external_body]
fn to_uppercase(text: &str) -> (r: String)
    ensures
        r@ == uppercase(text@),
        vstd::string::is_ascii(text) ==> r@ == ascii_upper(text@),
{
    text.to_uppercase()
}

/// A stock or option symbol, kept in upper case.
#[derive(Debug, Clone, Hash)]
pub struct Symbol(pub String);

impl Symbol {
    /// The symbol text.
    pub open spec fn text(self) -> Seq<char> {
        self.0@
    }

    /// The symbol of `s`, in upper case.
    pub fn new(s: &str) -> (r: Symbol)
        ensures
            r.text() == uppercase(s@),
            vstd::string::is_ascii(s) ==> r.text() == ascii_upper(s@),
    {
        Symbol(to_uppercase(s))
    }

    /// The symbol text.
    pub fn as_str(&self) -> (r: &str)
        ensures
            r@ == self.text(),
    {
        self.0.as_str()
    }

    /// Parses a symbol: empty text is refused.
    pub fn from_str(s: &str) -> (r: Result<Symbol, String>)
        ensures
            r is Err <==> s@.len() == 0,
            r is Err ==> r->Err_0@ == "Symbol cannot be empty"@,
            r is Ok ==> r->Ok_0.text() == uppercase(s@),
    {
        if s.is_empty() {
            Err(String::from_str("Symbol cannot be empty"))
        } else {
            Ok(Symbol::new(s))
        }
    }

    /// The display text.
    pub fn to_string(&self) -> (r: String)
        ensures
            r@ == self.text(),
    {
        self.0.clone()
    }
}

impl AsRef<str> for Symbol {
    /// The symbol text.
    fn as_ref(&self) -> (r: &str)
        ensures
            r@ == self.text(),
    {
        self.0.as_str()
    }
}

impl PartialEq for Symbol {
    fn eq(&self, other: &Symbol) -> (r: bool) {
        self.0 == other.0
    }
}

impl PartialEqSpecImpl for Symbol {
    open spec fn obeys_eq_spec() -> bool {
        true
    }

    open spec fn eq_spec(&self, other: &Symbol) -> bool {
        self.0@ == other.0@
    }
}

/// A monetary amount.
#[derive(Debug, Clone, Copy)]
pub struct Money(pub Decimal);

impl Money {
    /// The decimal value.
    pub open spec fn dec(self) -> Decimal {
        self.0
    }

    /// Money of a decimal amount.
    pub fn from_decimal(d: Decimal) -> (r: Money)
        ensures
            r.dec() == d,
    {
        Money(d)
    }

    /// Parses an amount.
    pub fn from_str(s: &str) -> (r: Result<Money, DecimalError>)
        ensures
            r is Ok <==> decimal_parse(s@) is Some,
            r is Ok ==> r->Ok_0.dec() == Decimal::from_pair(decimal_parse(s@)->Some_0),
    {
        match Decimal::parse(s) {
            Ok(d) => Ok(Money(d)),
            Err(e) => Err(e),
        }
    }

    /// The decimal value.
    pub fn to_decimal(&self) -> (r: Decimal)
        ensures
            r == self.dec(),
    {
        self.0
    }

    /// The value of a trade: `price * quantity`.
    pub fn from_trade(price: Price, quantity: Quantity) -> (r: Money)
        requires
            product_ok(price.dec(), quantity.dec()),
        ensures
            r.dec() == product_spec(price.dec(), quantity.dec()),
    {
        Money(price.to_decimal().times(quantity.to_decimal()))
    }

    /// The display text: `$` and the amount with two fractional digits.
    pub fn to_string(&self) -> (r: String)
        ensures
            r@ == "$"@ + decimal_text_two_places(self.dec().m(), self.dec().s()),
    {
        let mut t = String::from_str("$");
        t.append(self.0.to_string_two_places().as_str());
        proof {
            reveal_strlit("$");
        }
        t
    }
}

impl PartialEq for Money {
    fn eq(&self, other: &Money) -> (r: bool) {
        self.0 == other.0
    }
}

impl PartialEqSpecImpl for Money {
    open spec fn obeys_eq_spec() -> bool {
        true
    }

    open spec fn eq_spec(&self, other: &Money) -> bool {
        self.0.val() == other.0.val()
    }
}

impl core::ops::Add for Money {
    type Output = Money;

    fn add(self, rhs: Money) -> (r: Money) {
        Money(self.0.plus(rhs.0))
    }
}

impl AddSpecImpl for Money {
    open spec fn obeys_add_spec() -> bool {
        true
    }

    open spec fn add_req(self, rhs: Money) -> bool {
        sum_ok(self.0, rhs.0)
    }

    open spec fn add_spec(self, rhs: Money) -> Money {
        Money(sum_spec(self.0, rhs.0))
    }
}

impl core::ops::Sub for Money {
    type Output = Money;

    fn sub(self, rhs: Money) -> (r: Money) {
        Money(self.0.minus(rhs.0))
    }
}

impl SubSpecImpl for Money {
    open spec fn obeys_sub_spec() -> bool {
        true
    }

    open spec fn sub_req(self, rhs: Money) -> bool {
        difference_ok(self.0, rhs.0)
    }

    open spec fn sub_spec(self, rhs: Money) -> Money {
        Money(difference_spec(self.0, rhs.0))
    }
}

} // verus!
