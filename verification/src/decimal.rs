//! Fixed-point decimal numbers backed by `rust_decimal`.
//!
//! A [`Decimal`] is a signed 96-bit mantissa `m` and a scale `s` in `0..=28`;
//! its value is `m / 10^s`. Specifications speak of `val()`, the value counted
//! in units of `10^-28`, which is always an integer.
use crate::text::digits;
use vstd::prelude::*;
use vstd::std_specs::cmp::PartialEqSpecImpl;

verus! {

/// Largest magnitude of a mantissa: `2^96 - 1`.
pub const MAX_MANTISSA: i128 = 79228162514264337593543950335i128;

/// Largest scale.
pub const MAX_SCALE: u32 = 28u32;

/// `10^n`.
pub open spec fn pow10(n: nat) -> int
    decreases n,
{
    if n == 0 {
        1
    } else {
        10 * pow10((n - 1) as nat)
    }
}

/// Largest value, in units of `10^-28`.
pub open spec fn max_value() -> int {
    MAX_MANTISSA as int * pow10(28)
}

/// A value, in units of `10^-28`, whose magnitude a decimal can hold.
pub open spec fn fits_value(v: int) -> bool {
    -max_value() <= v <= max_value()
}

/// The pair a `rust_decimal` sum returns for these two operands.
pub uninterp spec fn decimal_sum(a_mantissa: i128, a_scale: u32, b_mantissa: i128, b_scale: u32) -> (i128, u32);

/// The pair a `rust_decimal` difference returns for these two operands.
pub uninterp spec fn decimal_difference(a_mantissa: i128, a_scale: u32, b_mantissa: i128, b_scale: u32) -> (i128, u32);

/// The pair a `rust_decimal` product returns for these two operands.
pub uninterp spec fn decimal_product(a_mantissa: i128, a_scale: u32, b_mantissa: i128, b_scale: u32) -> (i128, u32);

/// The pair a `rust_decimal` quotient returns for these two operands.
pub uninterp spec fn decimal_quotient(a_mantissa: i128, a_scale: u32, b_mantissa: i128, b_scale: u32) -> (i128, u32);

/// What `rust_decimal` parses from this text: the pair, or nothing on an error.
pub uninterp spec fn decimal_parse(text: Seq<char>) -> Option<(i128, u32)>;

/// `n` zeros.
pub open spec fn zeros(n: nat) -> Seq<char> {
    Seq::new(n, |i: int| '0')
}

/// The decimal digits of a mantissa's magnitude, most significant first;
/// none for zero.
pub open spec fn mantissa_digits(n: nat) -> Seq<char> {
    if n == 0 {
        Seq::empty()
    } else {
        digits(n)
    }
}

/// The text `rust_decimal` displays for a mantissa and scale with `prec`
/// fractional digits: a `-` for a negative mantissa; the mantissa's digits,
/// padded with leading zeros to at least `scale` digits, whose last `scale`
/// digits are the fraction; a `0` when the whole part is empty; then, when
/// `prec > 0`, a point and the first `prec` fraction digits, padded with
/// zeros (digits beyond `prec` are cut off).
pub open spec fn decimal_text_prec(mantissa: int, scale: nat, prec: nat) -> Seq<char> {
    let d = mantissa_digits(abs_int(mantissa) as nat);
    let padded = if d.len() < scale {
        zeros((scale - d.len()) as nat) + d
    } else {
        d
    };
    let whole = padded.take(padded.len() - scale);
    let frac = padded.skip(padded.len() - scale);
    let shown = if prec <= scale {
        frac.take(prec as int)
    } else {
        frac + zeros((prec - scale) as nat)
    };
    let lead = if whole.len() == 0 {
        "0"@
    } else {
        whole
    };
    let body = if prec == 0 {
        lead
    } else {
        lead + "."@ + shown
    };
    if mantissa < 0 {
        "-"@ + body
    } else {
        body
    }
}

/// The text `rust_decimal` displays for this pair: all `scale` fraction digits.
pub open spec fn decimal_text(mantissa: i128, scale: u32) -> Seq<char> {
    decimal_text_prec(mantissa as int, scale as nat, scale as nat)
}

/// The text `rust_decimal` displays for this pair with precision two (`{:.2}`).
pub open spec fn decimal_text_two_places(mantissa: i128, scale: u32) -> Seq<char> {
    decimal_text_prec(mantissa as int, scale as nat, 2)
}

/// A decimal number `mantissa / 10^scale`.
#[derive(Clone, Copy, Debug)]
pub struct Decimal {
    mantissa: i128,
    scale: u32,
}

impl Decimal {
    /// The representation bounds of `rust_decimal`.
    #[verifier::type_invariant]
    pub open spec fn inv(self) -> bool {
        self.valid()
    }

    /// The mantissa.
    pub closed spec fn m(self) -> i128 {
        self.mantissa
    }

    /// The scale.
    pub closed spec fn s(self) -> u32 {
        self.scale
    }

    /// The decimal with this mantissa and scale.
    pub closed spec fn mk(m: i128, s: u32) -> Decimal {
        Decimal { mantissa: m, scale: s }
    }

    /// The value in units of `10^-28`.
    pub open spec fn val(self) -> int {
        self.m() * pow10((28 - self.s()) as nat)
    }

    /// Whether the mantissa and scale are within the bounds.
    pub open spec fn valid(self) -> bool {
        &&& -MAX_MANTISSA <= self.m() <= MAX_MANTISSA
        &&& self.s() <= 28
    }

    /// The decimal built from a `(mantissa, scale)` pair.
    pub open spec fn from_pair(p: (i128, u32)) -> Decimal {
        Decimal::mk(p.0, p.1)
    }

    /// A decimal built from a mantissa and a scale has that mantissa and scale.
    pub broadcast proof fn lemma_mk(m: i128, s: u32)
        ensures
            #[trigger] Decimal::mk(m, s).m() == m,
            Decimal::mk(m, s).s() == s,
    {
    }

    /// A decimal is the one built from its own mantissa and scale.
    pub broadcast proof fn lemma_mk_eq(d: Decimal)
        ensures
            #[trigger] Decimal::mk(d.m(), d.s()) == d,
    {
    }
}

/// Every power of ten is at least one.
pub proof fn lemma_pow10_positive(n: nat)
    ensures
        pow10(n) >= 1,
    decreases n,
{
    if n > 0 {
        lemma_pow10_positive((n - 1) as nat);
    }
}

/// Powers of ten multiply by adding exponents.
pub proof fn lemma_pow10_add(x: nat, y: nat)
    ensures
        pow10(x) * pow10(y) == pow10(x + y),
    decreases x,
{
    if x > 0 {
        lemma_pow10_add((x - 1) as nat, y);
        assert(pow10(x) * pow10(y) == 10 * (pow10((x - 1) as nat) * pow10(y))) by (nonlinear_arith)
            requires
                pow10(x) == 10 * pow10((x - 1) as nat),
        ;
        assert(pow10(x + y) == 10 * pow10((x + y - 1) as nat));
        assert((x + y - 1) as nat == ((x - 1) as nat + y) as nat);
    }
}

/// The value is zero exactly when the mantissa is, and has the mantissa's sign.
pub proof fn lemma_val_sign(d: Decimal)
    ensures
        d.val() == 0 <==> d.m() == 0,
        d.val() > 0 <==> d.m() > 0,
        d.val() < 0 <==> d.m() < 0,
{
    lemma_pow10_positive((28 - d.s()) as nat);
    let p = pow10((28 - d.s()) as nat);
    let m = d.m() as int;
    assert(m > 0 ==> m * p > 0) by (nonlinear_arith)
        requires
            p >= 1,
    ;
    assert(m < 0 ==> m * p < 0) by (nonlinear_arith)
        requires
            p >= 1,
    ;
    assert(m == 0 ==> m * p == 0);
    assert(d.val() == m * p);
}

/// Powers of ten grow with the exponent.
pub proof fn lemma_pow10_monotone(a: nat, b: nat)
    requires
        a <= b,
    ensures
        pow10(a) <= pow10(b),
    decreases b,
{
    if a < b {
        lemma_pow10_monotone(a, (b - 1) as nat);
        lemma_pow10_positive((b - 1) as nat);
    }
}

/// A valid decimal's value is within the range.
pub proof fn lemma_val_bound(d: Decimal)
    requires
        d.valid(),
    ensures
        fits_value(d.val()),
{
    lemma_pow10_monotone((28 - d.s()) as nat, 28);
    lemma_pow10_positive((28 - d.s()) as nat);
    let p = pow10((28 - d.s()) as nat);
    let q = pow10(28);
    let m = d.m() as int;
    assert(-(MAX_MANTISSA as int) * q <= m * p <= (MAX_MANTISSA as int) * q) by (nonlinear_arith)
        requires
            -(MAX_MANTISSA as int) <= m <= MAX_MANTISSA as int,
            1 <= p <= q,
    ;
}

/// Multiplying a valid decimal by one or minus one never overflows.
pub proof fn lemma_sign_product_ok(d: Decimal, buy: bool)
    requires
        d.valid(),
    ensures
        product_ok(d, if buy { one_spec() } else { negative_one_spec() }),
{
    lemma_val_bound(d);
    let u = if buy { one_spec() } else { negative_one_spec() };
    assert(one_spec().m() == 1 && one_spec().s() == 0);
    assert(negative_one_spec().m() == -1 && negative_one_spec().s() == 0);
    assert(one_spec().val() == 1 * pow10(28));
    assert(negative_one_spec().val() == -1 * pow10(28));
    lemma_pow10_positive(28);
    let q = pow10(28);
    let v = d.val();
    assert(-max_value() * q <= v * u.val() <= max_value() * q) by (nonlinear_arith)
        requires
            -max_value() <= v <= max_value(),
            u.val() == q || u.val() == -q,
            q >= 1,
    ;
}

/// Zero: mantissa 0, scale 0.
pub open spec fn zero_spec() -> Decimal {
    Decimal::mk(0, 0)
}

/// One: mantissa 1, scale 0.
pub open spec fn one_spec() -> Decimal {
    Decimal::mk(1, 0)
}

/// Minus one: mantissa -1, scale 0.
pub open spec fn negative_one_spec() -> Decimal {
    Decimal::mk(-1i128, 0)
}

/// The absolute value: the same scale, the mantissa's magnitude.
pub open spec fn abs_spec(d: Decimal) -> Decimal {
    Decimal::mk(abs_int(d.m() as int) as i128, d.s())
}

/// The negation: the same scale, the mantissa negated.
pub open spec fn neg_spec(d: Decimal) -> Decimal {
    Decimal::mk((-d.m()) as i128, d.s())
}

/// `a.min(b)`: `b` when `a > b`, else `a`.
pub open spec fn min_spec(a: Decimal, b: Decimal) -> Decimal {
    if a.val() > b.val() {
        b
    } else {
        a
    }
}

/// `a.max(b)`: `b` when `a < b`, else `a`.
pub open spec fn max_spec(a: Decimal, b: Decimal) -> Decimal {
    if a.val() < b.val() {
        b
    } else {
        a
    }
}

/// Zero is its own absolute value, and has value zero.
pub proof fn lemma_abs_of_zero()
    ensures
        abs_spec(zero_spec()) == zero_spec(),
        zero_spec().val() == 0,
{
}

/// One has value `10^28` in units of `10^-28`.
pub proof fn lemma_one_positive()
    ensures
        one_spec().val() == pow10(28),
        pow10(28) >= 1,
{
    lemma_pow10_positive(28);
    assert(one_spec().m() == 1 && one_spec().s() == 0);
    assert(one_spec().val() == 1 * pow10(28));
}

/// The larger of the two scales.
pub open spec fn common_scale(a: Decimal, b: Decimal) -> u32 {
    if a.s() >= b.s() {
        a.s()
    } else {
        b.s()
    }
}

/// The mantissa of `d` written at the larger scale `scale`.
pub open spec fn aligned(d: Decimal, scale: u32) -> int {
    d.m() * pow10((scale - d.s()) as nat)
}

/// Whether a mantissa fits in 96 bits.
pub open spec fn mantissa_fits(t: int) -> bool {
    -MAX_MANTISSA <= t <= MAX_MANTISSA
}

/// The result of `a + b` in `rust_decimal`: a zero operand gives the other one
/// back; a sum whose mantissa fits at the larger scale is exact at that scale;
/// otherwise the rounded pair that `rust_decimal` computes.
pub open spec fn sum_spec(a: Decimal, b: Decimal) -> Decimal {
    if a.m() == 0 {
        b
    } else if b.m() == 0 {
        a
    } else if mantissa_fits(aligned(a, common_scale(a, b)) + aligned(b, common_scale(a, b))) {
        Decimal::mk((aligned(a, common_scale(a, b)) + aligned(b, common_scale(a, b))) as i128, common_scale(a, b))
    } else {
        Decimal::from_pair(decimal_sum(a.m(), a.s(), b.m(), b.s()))
    }
}

/// The result of `a - b` in `rust_decimal`, on the same terms as [`sum_spec`].
pub open spec fn difference_spec(a: Decimal, b: Decimal) -> Decimal {
    if a.m() == 0 {
        Decimal::mk((-b.m()) as i128, b.s())
    } else if b.m() == 0 {
        a
    } else if mantissa_fits(aligned(a, common_scale(a, b)) - aligned(b, common_scale(a, b))) {
        Decimal::mk((aligned(a, common_scale(a, b)) - aligned(b, common_scale(a, b))) as i128, common_scale(a, b))
    } else {
        Decimal::from_pair(decimal_difference(a.m(), a.s(), b.m(), b.s()))
    }
}

/// The result of `a * b` in `rust_decimal`: zero when an operand is zero; exact
/// at scale `a.s() + b.s()` when that scale is at most 28 and the mantissa
/// product fits; otherwise the rounded pair that `rust_decimal` computes.
pub open spec fn product_spec(a: Decimal, b: Decimal) -> Decimal {
    if a.m() == 0 || b.m() == 0 {
        Decimal::mk(0, 0)
    } else if a.s() + b.s() <= 28 && mantissa_fits(a.m() * b.m()) {
        Decimal::mk((a.m() * b.m()) as i128, (a.s() + b.s()) as u32)
    } else {
        Decimal::from_pair(decimal_product(a.m(), a.s(), b.m(), b.s()))
    }
}

/// The result of `a / b` in `rust_decimal`: zero when `a` is zero, otherwise
/// the rounded quotient that `rust_decimal` computes.
pub open spec fn quotient_spec(a: Decimal, b: Decimal) -> Decimal {
    if a.m() == 0 {
        Decimal::mk(0, 0)
    } else {
        Decimal::from_pair(decimal_quotient(a.m(), a.s(), b.m(), b.s()))
    }
}

/// `a + b` does not overflow.
pub open spec fn sum_ok(a: Decimal, b: Decimal) -> bool {
    fits_value(a.val() + b.val())
}

/// `a - b` does not overflow.
pub open spec fn difference_ok(a: Decimal, b: Decimal) -> bool {
    fits_value(a.val() - b.val())
}

/// `a * b` does not overflow.
pub open spec fn product_ok(a: Decimal, b: Decimal) -> bool {
    -max_value() * pow10(28) <= a.val() * b.val() <= max_value() * pow10(28)
}

/// Absolute value of an integer.
pub open spec fn abs_int(x: int) -> int {
    if x < 0 {
        -x
    } else {
        x
    }
}

/// `a / b` neither divides by zero nor overflows.
pub open spec fn quotient_ok(a: Decimal, b: Decimal) -> bool {
    &&& b.val() != 0
    &&& abs_int(a.val()) * pow10(28) <= max_value() * abs_int(b.val())
}

/// `a + b` is computed without rounding: an operand is zero, or the sum's
/// mantissa at the larger scale fits in 96 bits.
pub open spec fn sum_exact(a: Decimal, b: Decimal) -> bool {
    a.m() == 0 || b.m() == 0 || mantissa_fits(aligned(a, common_scale(a, b)) + aligned(b, common_scale(a, b)))
}

/// `a - b` is computed without rounding, on the terms of [`sum_exact`].
pub open spec fn difference_exact(a: Decimal, b: Decimal) -> bool {
    a.m() == 0 || b.m() == 0 || mantissa_fits(aligned(a, common_scale(a, b)) - aligned(b, common_scale(a, b)))
}

/// `a * b` is computed without rounding: an operand is zero, or the scales
/// add up to at most 28 and the mantissa product fits in 96 bits.
pub open spec fn product_exact(a: Decimal, b: Decimal) -> bool {
    a.m() == 0 || b.m() == 0 || (a.s() + b.s() <= 28 && mantissa_fits(a.m() * b.m()))
}

/// Aligning a decimal to a larger scale keeps its value.
pub proof fn lemma_aligned_value(d: Decimal, scale: u32)
    requires
        d.s() <= scale <= 28,
    ensures
        aligned(d, scale) * pow10((28 - scale) as nat) == d.val(),
{
    let x = (scale - d.s()) as nat;
    let y = (28 - scale) as nat;
    lemma_pow10_add(x, y);
    assert(x + y == (28 - d.s()) as nat);
    let m = d.m() as int;
    assert(m * pow10(x) * pow10(y) == m * (pow10(x) * pow10(y))) by (nonlinear_arith);
}

/// A sum without rounding has the exact value: values add.
pub proof fn lemma_sum_exact(a: Decimal, b: Decimal)
    requires
        a.valid(),
        b.valid(),
        sum_exact(a, b),
    ensures
        sum_spec(a, b).val() == a.val() + b.val(),
        sum_spec(a, b).valid(),
{
    lemma_val_sign(a);
    lemma_val_sign(b);
    if a.m() != 0 && b.m() != 0 {
        let cs = common_scale(a, b);
        lemma_aligned_value(a, cs);
        lemma_aligned_value(b, cs);
        let p = pow10((28 - cs) as nat);
        let x = aligned(a, cs);
        let y = aligned(b, cs);
        assert((x + y) * p == x * p + y * p) by (nonlinear_arith);
    }
}

/// A difference without rounding has the exact value: values subtract.
pub proof fn lemma_difference_exact(a: Decimal, b: Decimal)
    requires
        a.valid(),
        b.valid(),
        difference_exact(a, b),
    ensures
        difference_spec(a, b).val() == a.val() - b.val(),
        difference_spec(a, b).valid(),
{
    lemma_val_sign(a);
    lemma_val_sign(b);
    if a.m() == 0 {
        let m = b.m() as int;
        let p = pow10((28 - b.s()) as nat);
        assert((-m) * p == -(m * p)) by (nonlinear_arith);
    } else if b.m() != 0 {
        let cs = common_scale(a, b);
        lemma_aligned_value(a, cs);
        lemma_aligned_value(b, cs);
        let p = pow10((28 - cs) as nat);
        let x = aligned(a, cs);
        let y = aligned(b, cs);
        assert((x - y) * p == x * p - y * p) by (nonlinear_arith);
    }
}

/// A product without rounding has the exact value: in units of `10^-28`,
/// `product * 10^28 == a * b`.
pub proof fn lemma_product_exact(a: Decimal, b: Decimal)
    requires
        a.valid(),
        b.valid(),
        product_exact(a, b),
    ensures
        product_spec(a, b).val() * pow10(28) == a.val() * b.val(),
        product_spec(a, b).valid(),
{
    lemma_val_sign(a);
    lemma_val_sign(b);
    if a.m() == 0 || b.m() == 0 {
        assert(a.val() * b.val() == 0) by (nonlinear_arith)
            requires
                a.val() == 0 || b.val() == 0,
        ;
        assert(Decimal::mk(0, 0).val() == 0 * pow10(28));
    } else {
        let s = (a.s() + b.s()) as nat;
        let pa = pow10((28 - a.s()) as nat);
        let pb = pow10((28 - b.s()) as nat);
        let ps = pow10((28 - s) as nat);
        lemma_pow10_add((28 - a.s()) as nat, (28 - b.s()) as nat);
        lemma_pow10_add((28 - s) as nat, 28);
        assert(((28 - a.s()) as nat + (28 - b.s()) as nat) == (28 - s) as nat + 28);
        let ma = a.m() as int;
        let mb = b.m() as int;
        assert((ma * mb) * ps * pow10(28) == (ma * pa) * (mb * pb)) by (nonlinear_arith)
            requires
                pa * pb == ps * pow10(28),
        ;
    }
}

/// The absolute value of a decimal has the absolute value of its value.
pub proof fn lemma_abs_value(d: Decimal)
    requires
        d.valid(),
    ensures
        abs_spec(d).val() == abs_int(d.val()),
        abs_spec(d).valid(),
{
    lemma_val_sign(d);
    let m = d.m() as int;
    let p = pow10((28 - d.s()) as nat);
    assert((-m) * p == -(m * p)) by (nonlinear_arith);
}

/// The smaller of two valid decimals is one of them, and has the smaller value.
pub proof fn lemma_min_value(a: Decimal, b: Decimal)
    requires
        a.valid(),
        b.valid(),
    ensures
        min_spec(a, b).valid(),
        min_spec(a, b).val() == if a.val() <= b.val() {
            a.val()
        } else {
            b.val()
        },
{
}

/// Multiplying by one or minus one is exact, and gives the value or its negation.
pub proof fn lemma_sign_product(d: Decimal, buy: bool)
    requires
        d.valid(),
    ensures
        product_spec(d, if buy { one_spec() } else { negative_one_spec() }).valid(),
        product_spec(d, if buy { one_spec() } else { negative_one_spec() }).val() == if buy {
            d.val()
        } else {
            -d.val()
        },
{
    let u = if buy { one_spec() } else { negative_one_spec() };
    assert(one_spec().m() == 1 && one_spec().s() == 0);
    assert(negative_one_spec().m() == -1 && negative_one_spec().s() == 0);
    assert(one_spec().val() == 1 * pow10(28));
    assert(negative_one_spec().val() == -1 * pow10(28));
    assert(product_exact(d, u));
    lemma_product_exact(d, u);
    lemma_pow10_positive(28);
    let q = pow10(28);
    let v = d.val();
    let r = product_spec(d, u).val();
    if buy {
        assert(r == v) by (nonlinear_arith)
            requires
                r * q == v * q,
                q >= 1,
        ;
    } else {
        assert(r == -v) by (nonlinear_arith)
            requires
                r * q == v * (-q),
                q >= 1,
        ;
    }
}

/// The value `t` (in units of `10^-28`) is held exactly at scale `s`: it is
/// a whole multiple of `10^(28 - s)`, and that multiple fits in 96 bits.
pub open spec fn representable_at(t: int, s: nat) -> bool {
    &&& s <= 28
    &&& t % pow10((28 - s) as nat) == 0
    &&& abs_int(t / pow10((28 - s) as nat)) <= MAX_MANTISSA
}

/// The exact quotient `a / b` is a decimal: `b` divides `a` in units of
/// `10^-28`, and the result is held exactly at some scale.
pub open spec fn quotient_exact(a: Decimal, b: Decimal) -> bool {
    &&& b.val() != 0
    &&& (a.val() * pow10(28)) % b.val() == 0
    &&& exists|s: nat| #[trigger] representable_at((a.val() * pow10(28)) / b.val(), s)
}

/// `rust_decimal::Decimal` addition (`+`).
#[verifier::external_body]
fn rd_add(a: Decimal, b: Decimal) -> (r: Decimal)
    requires
        sum_ok(a, b),
    ensures
        r == (if a.m() == 0 {
            b
        } else if b.m() == 0 {
            a
        } else if mantissa_fits(aligned(a, common_scale(a, b)) + aligned(b, common_scale(a, b))) {
            Decimal::mk((aligned(a, common_scale(a, b)) + aligned(b, common_scale(a, b))) as i128, common_scale(a, b))
        } else {
            Decimal::from_pair(decimal_sum(a.m(), a.s(), b.m(), b.s()))
        }),
{
    let x = rust_decimal::Decimal::from_i128_with_scale(a.mantissa, a.scale);
    let y = rust_decimal::Decimal::from_i128_with_scale(b.mantissa, b.scale);
    let z = x + y;
    Decimal { mantissa: z.mantissa(), scale: z.scale() }
}

/// `rust_decimal::Decimal` subtraction (`-`).
#[verifier::external_body]
fn rd_sub(a: Decimal, b: Decimal) -> (r: Decimal)
    requires
        difference_ok(a, b),
    ensures
        r == (if a.m() == 0 {
            Decimal::mk((-b.m()) as i128, b.s())
        } else if b.m() == 0 {
            a
        } else if mantissa_fits(aligned(a, common_scale(a, b)) - aligned(b, common_scale(a, b))) {
            Decimal::mk((aligned(a, common_scale(a, b)) - aligned(b, common_scale(a, b))) as i128, common_scale(a, b))
        } else {
            Decimal::from_pair(decimal_difference(a.m(), a.s(), b.m(), b.s()))
        }),
{
    let x = rust_decimal::Decimal::from_i128_with_scale(a.mantissa, a.scale);
    let y = rust_decimal::Decimal::from_i128_with_scale(b.mantissa, b.scale);
    let z = x - y;
    Decimal { mantissa: z.mantissa(), scale: z.scale() }
}

/// `rust_decimal::Decimal` multiplication (`*`).
#[verifier::external_body]
fn rd_mul(a: Decimal, b: Decimal) -> (r: Decimal)
    requires
        product_ok(a, b),
    ensures
        r == (if a.m() == 0 || b.m() == 0 {
            Decimal::mk(0, 0)
        } else if a.s() + b.s() <= 28 && mantissa_fits(a.m() * b.m()) {
            Decimal::mk((a.m() * b.m()) as i128, (a.s() + b.s()) as u32)
        } else {
            Decimal::from_pair(decimal_product(a.m(), a.s(), b.m(), b.s()))
        }),
{
    let x = rust_decimal::Decimal::from_i128_with_scale(a.mantissa, a.scale);
    let y = rust_decimal::Decimal::from_i128_with_scale(b.mantissa, b.scale);
    let z = x * y;
    Decimal { mantissa: z.mantissa(), scale: z.scale() }
}

/// `rust_decimal::Decimal` division (`/`). Beyond a zero dividend, the
/// rounded quotient is only named; of it the contract states the sign (a
/// quotient of operands of equal signs is not negative) and that a quotient
/// a decimal can hold exactly comes out exact: the long division runs until
/// the remainder is zero while the scale and the 96 bits allow.
#[verifier::external_body]
fn rd_div(a: Decimal, b: Decimal) -> (r: Decimal)
    requires
        quotient_ok(a, b),
    ensures
        r == (if a.m() == 0 {
            Decimal::mk(0, 0)
        } else {
            Decimal::from_pair(decimal_quotient(a.m(), a.s(), b.m(), b.s()))
        }),
        (a.val() >= 0 && b.val() > 0) || (a.val() <= 0 && b.val() < 0) ==> r.val() >= 0,
        quotient_exact(a, b) ==> r.val() * b.val() == a.val() * pow10(28),
{
    let x = rust_decimal::Decimal::from_i128_with_scale(a.mantissa, a.scale);
    let y = rust_decimal::Decimal::from_i128_with_scale(b.mantissa, b.scale);
    let z = x / y;
    Decimal { mantissa: z.mantissa(), scale: z.scale() }
}

/// `rust_decimal::Decimal` ordering (`<`): numeric order of the values.
#[verifier::external_body]
fn rd_lt(a: Decimal, b: Decimal) -> (r: bool)
    ensures
        r == (a.val() < b.val()),
{
    let x = rust_decimal::Decimal::from_i128_with_scale(a.mantissa, a.scale);
    let y = rust_decimal::Decimal::from_i128_with_scale(b.mantissa, b.scale);
    x < y
}

/// `rust_decimal::Decimal` equality (`==`): equality of the values.
#[verifier::external_body]
fn rd_eq(a: Decimal, b: Decimal) -> (r: bool)
    ensures
        r == (a.val() == b.val()),
{
    let x = rust_decimal::Decimal::from_i128_with_scale(a.mantissa, a.scale);
    let y = rust_decimal::Decimal::from_i128_with_scale(b.mantissa, b.scale);
    x == y
}

impl Decimal {
    /// Zero (mantissa 0, scale 0).
    pub fn zero() -> (r: Decimal)
        ensures
            r == zero_spec(),
            r.val() == 0,
    {
        let r = Decimal { mantissa: 0, scale: 0 };
        assert(r.val() == 0 * pow10(28));
        r
    }

    /// One (mantissa 1, scale 0).
    pub fn one() -> (r: Decimal)
        ensures
            r == one_spec(),
            r.val() == pow10(28),
    {
        let r = Decimal { mantissa: 1, scale: 0 };
        assert(r.val() == 1 * pow10(28));
        r
    }

    /// Minus one (mantissa -1, scale 0).
    pub fn negative_one() -> (r: Decimal)
        ensures
            r == negative_one_spec(),
            r.val() == -pow10(28),
    {
        let r = Decimal { mantissa: -1, scale: 0 };
        assert(r.val() == -1 * pow10(28));
        r
    }

    /// `num / 10^scale`; a scale above 28 is refused by `requires`.
    pub fn new(num: i64, scale: u32) -> (r: Decimal)
        requires
            scale <= MAX_SCALE,
        ensures
            r == Decimal::mk(num as i128, scale),
    {
        Decimal { mantissa: num as i128, scale }
    }

    /// The integer `n`.
    pub fn from_i64(n: i64) -> (r: Decimal)
        ensures
            r == Decimal::mk(n as i128, 0),
            r.val() == n * pow10(28),
    {
        Decimal { mantissa: n as i128, scale: 0 }
    }

    /// The mantissa.
    pub fn mantissa(&self) -> (r: i128)
        ensures
            r == self.m(),
    {
        self.mantissa
    }

    /// The scale.
    pub fn scale(&self) -> (r: u32)
        ensures
            r == self.s(),
    {
        self.scale
    }

    /// `self + other`.
    pub fn plus(self, other: Decimal) -> (r: Decimal)
        requires
            sum_ok(self, other),
        ensures
            r == sum_spec(self, other),
    {
        rd_add(self, other)
    }

    /// `self - other`.
    pub fn minus(self, other: Decimal) -> (r: Decimal)
        requires
            difference_ok(self, other),
        ensures
            r == difference_spec(self, other),
    {
        rd_sub(self, other)
    }

    /// `self * other`.
    pub fn times(self, other: Decimal) -> (r: Decimal)
        requires
            product_ok(self, other),
        ensures
            r == product_spec(self, other),
    {
        rd_mul(self, other)
    }

    /// `self / other`.
    pub fn over(self, other: Decimal) -> (r: Decimal)
        requires
            quotient_ok(self, other),
        ensures
            r == quotient_spec(self, other),
            (self.val() >= 0 && other.val() > 0) || (self.val() <= 0 && other.val() < 0) ==> r.val()
                >= 0,
            quotient_exact(self, other) ==> r.val() * other.val() == self.val() * pow10(28),
    {
        rd_div(self, other)
    }

    /// `self < other`.
    pub fn lt(&self, other: &Decimal) -> (r: bool)
        ensures
            r == (self.val() < other.val()),
    {
        rd_lt(*self, *other)
    }

    /// `self > other`.
    pub fn gt(&self, other: &Decimal) -> (r: bool)
        ensures
            r == (self.val() > other.val()),
    {
        rd_lt(*other, *self)
    }

    /// `self <= other`.
    pub fn le(&self, other: &Decimal) -> (r: bool)
        ensures
            r == (self.val() <= other.val()),
    {
        !rd_lt(*other, *self)
    }

    /// `self >= other`.
    pub fn ge(&self, other: &Decimal) -> (r: bool)
        ensures
            r == (self.val() >= other.val()),
    {
        !rd_lt(*self, *other)
    }

    /// Absolute value: the same scale, the mantissa's magnitude.
    pub fn abs(&self) -> (r: Decimal)
        ensures
            r == abs_spec(*self),
            r.val() == abs_int(self.val()),
    {
        proof {
            use_type_invariant(self);
            lemma_pow10_positive((28 - self.s()) as nat);
            let p = pow10((28 - self.s()) as nat);
            let m = self.m() as int;
            assert(m < 0 ==> (-m) * p == -(m * p)) by (nonlinear_arith);
            lemma_val_sign(*self);
        }
        if self.mantissa < 0 {
            Decimal { mantissa: -self.mantissa, scale: self.scale }
        } else {
            *self
        }
    }

    /// Negation: the same scale, the mantissa negated.
    pub fn neg(&self) -> (r: Decimal)
        ensures
            r == neg_spec(*self),
            r.val() == -self.val(),
    {
        proof {
            use_type_invariant(self);
            let p = pow10((28 - self.s()) as nat);
            let m = self.m() as int;
            assert((-m) * p == -(m * p)) by (nonlinear_arith);
        }
        Decimal { mantissa: -self.mantissa, scale: self.scale }
    }

    /// Whether the value is zero.
    pub fn is_zero(&self) -> (r: bool)
        ensures
            r == (self.val() == 0),
            r == (self.m() == 0),
    {
        proof {
            lemma_val_sign(*self);
        }
        self.mantissa == 0
    }

    /// Whether the sign is positive (zero included).
    pub fn is_sign_positive(&self) -> (r: bool)
        ensures
            r == (self.val() >= 0),
    {
        proof {
            lemma_val_sign(*self);
        }
        self.mantissa >= 0
    }

    /// Whether the sign is negative.
    pub fn is_sign_negative(&self) -> (r: bool)
        ensures
            r == (self.val() < 0),
    {
        proof {
            lemma_val_sign(*self);
        }
        self.mantissa < 0
    }

    /// The smaller of the two: `other` when `self > other`, else `self`.
    pub fn min(self, other: Decimal) -> (r: Decimal)
        ensures
            r == min_spec(self, other),
    {
        if self.gt(&other) {
            other
        } else {
            self
        }
    }

    /// The larger of the two: `other` when `self < other`, else `self`.
    pub fn max(self, other: Decimal) -> (r: Decimal)
        ensures
            r == max_spec(self, other),
    {
        if self.lt(&other) {
            other
        } else {
            self
        }
    }

    /// Parses decimal text.
    pub fn parse(text: &str) -> (r: Result<Decimal, DecimalError>)
        ensures
            r is Ok <==> decimal_parse(text@) is Some,
            r is Ok ==> r->Ok_0 == Decimal::from_pair(decimal_parse(text@)->Some_0),
    {
        rd_parse(text)
    }

    /// The display text.
    pub fn to_string(&self) -> (r: String)
        ensures
            r@ == decimal_text(self.m(), self.s()),
    {
        rd_text(*self)
    }

    /// The display text with two fractional digits.
    pub fn to_string_two_places(&self) -> (r: String)
        ensures
            r@ == decimal_text_two_places(self.m(), self.s()),
    {
        rd_text_two_places(*self)
    }
}

impl PartialEq for Decimal {
    fn eq(&self, other: &Decimal) -> (r: bool) {
        rd_eq(*self, *other)
    }
}

impl PartialEqSpecImpl for Decimal {
    open spec fn obeys_eq_spec() -> bool {
        true
    }

    open spec fn eq_spec(&self, other: &Decimal) -> bool {
        self.val() == other.val()
    }
}

/// The error `rust_decimal` reports, variant for variant.
#[derive(Clone, Debug)]
pub enum DecimalError {
    ErrorString(String),
    ExceedsMaximumPossibleValue,
    LessThanMinimumPossibleValue,
    Underflow,
    ScaleExceedsMaximumPrecision(u32),
    ConversionTo(String),
}

/// `<rust_decimal::Decimal as FromStr>::from_str`: succeeds exactly when the
/// named parse gives a pair, and then returns it; which error comes back on a
/// failure is left unsaid.
#[verifier::external_body]
fn rd_parse(text: &str) -> (r: Result<Decimal, DecimalError>)
    ensures
        r is Ok <==> decimal_parse(text@) is Some,
        r is Ok ==> r->Ok_0 == Decimal::from_pair(decimal_parse(text@)->Some_0),
{
    match <rust_decimal::Decimal as std::str::FromStr>::from_str(text) {
        Ok(z) => Ok(Decimal { mantissa: z.mantissa(), scale: z.scale() }),
        Err(rust_decimal::Error::ErrorString(m)) => Err(DecimalError::ErrorString(m)),
        Err(rust_decimal::Error::ExceedsMaximumPossibleValue) => Err(DecimalError::ExceedsMaximumPossibleValue),
        Err(rust_decimal::Error::LessThanMinimumPossibleValue) => Err(DecimalError::LessThanMinimumPossibleValue),
        Err(rust_decimal::Error::Underflow) => Err(DecimalError::Underflow),
        Err(rust_decimal::Error::ScaleExceedsMaximumPrecision(s)) => Err(DecimalError::ScaleExceedsMaximumPrecision(s)),
        Err(rust_decimal::Error::ConversionTo(m)) => Err(DecimalError::ConversionTo(m)),
    }
}

/// `rust_decimal::Decimal`'s `Display` text: the digits of the mantissa with
/// the point `scale` places from the right (see [`decimal_text_prec`]).
#[verifier::external_body]
fn rd_text(d: Decimal) -> (r: String)
    ensures
        r@ == decimal_text(d.m(), d.s()),
{
    rust_decimal::Decimal::from_i128_with_scale(d.mantissa, d.scale).to_string()
}

/// `rust_decimal::Decimal`'s `Display` text with precision two (`{:.2}`):
/// two fraction digits, cut off or padded with zeros, not rounded.
#[verifier::external_body]
fn rd_text_two_places(d: Decimal) -> (r: String)
    ensures
        r@ == decimal_text_two_places(d.m(), d.s()),
{
    format!("{:.2}", rust_decimal::Decimal::from_i128_with_scale(d.mantissa, d.scale))
}

} // verus!
