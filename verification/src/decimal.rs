//! Decimal amounts, as the commerce engine counts them.

use vstd::prelude::*;

use crate::models::{minor_unit_scale, scale_of};
use crate::text::uppercase;

verus! {

/// The largest magnitude of a mantissa.
pub const MAX_MANTISSA: i128 = 79_228_162_514_264_337_593_543_950_335;

/// A decimal number: a mantissa, and how many of its digits stand behind the
/// point.
#[derive(Debug, Clone, Copy, PartialEq, Eq, Structural)]
pub struct DecimalParts {
    pub mantissa: i128,
    pub scale: u32,
}

impl DecimalParts {
    /// Whether a decimal number of the engine has these parts.
    pub open spec fn wf(self) -> bool {
        -MAX_MANTISSA <= self.mantissa <= MAX_MANTISSA && self.scale <= 28
    }

    /// Whether a decimal number of the engine has these parts.
    pub fn is_valid(&self) -> (r: bool)
        ensures
            r == self.wf(),
    {
        -MAX_MANTISSA <= self.mantissa && self.mantissa <= MAX_MANTISSA && self.scale <= 28
    }
}

/// A power of ten.
pub open spec fn pow10(n: nat) -> int
    decreases n,
{
    if n == 0 {
        1
    } else {
        10 * pow10((n - 1) as nat)
    }
}

/// The quotient of two whole numbers, as `rust_decimal` divides them.
pub uninterp spec fn decimal_quotient(a: int, b: int) -> (int, nat);

/// The product of a decimal number and a whole one, as `rust_decimal` multiplies
/// them; nothing when it overflows.
pub uninterp spec fn decimal_product(mantissa: int, scale: nat, b: int) -> Option<(int, nat)>;

/// The sum of two decimal numbers, as `rust_decimal` adds them; nothing when it
/// overflows.
pub uninterp spec fn decimal_sum(a: int, a_scale: nat, b: int, b_scale: nat) -> Option<(int, nat)>;

/// `rust_decimal`'s division of `Decimal::from(a)` by `Decimal::from(b)`: a
/// function of the two numbers.
#[verifier::external_body]
pub(crate) fn divide(a: i64, b: i64) -> (r: DecimalParts)
    requires
        b > 0,
    ensures
        r.wf(),
        (r.mantissa as int, r.scale as nat) == decimal_quotient(a as int, b as int),
{
    let q = rust_decimal::Decimal::from(a) / rust_decimal::Decimal::from(b);
    DecimalParts { mantissa: q.mantissa(), scale: q.scale() }
}

/// `rust_decimal::Decimal::checked_mul` with a whole number: a function of the
/// two numbers, and nothing on overflow.
#[verifier::external_body]
pub(crate) fn checked_multiply(a: DecimalParts, b: i64) -> (r: Option<DecimalParts>)
    requires
        a.wf(),
    ensures
        match r {
            Some(p) => p.wf() && decimal_product(a.mantissa as int, a.scale as nat, b as int)
                == Some((p.mantissa as int, p.scale as nat)),
            None => decimal_product(a.mantissa as int, a.scale as nat, b as int) is None,
        },
{
    let x = rust_decimal::Decimal::from_i128_with_scale(a.mantissa, a.scale);
    let p = x.checked_mul(rust_decimal::Decimal::from(b))?;
    Some(DecimalParts { mantissa: p.mantissa(), scale: p.scale() })
}

/// `rust_decimal::Decimal::checked_add`: a function of the two numbers, and
/// nothing on overflow.
#[verifier::external_body]
pub(crate) fn checked_sum(a: DecimalParts, b: DecimalParts) -> (r: Option<DecimalParts>)
    requires
        a.wf(),
        b.wf(),
    ensures
        match r {
            Some(s) => s.wf() && decimal_sum(
                a.mantissa as int,
                a.scale as nat,
                b.mantissa as int,
                b.scale as nat,
            ) == Some((s.mantissa as int, s.scale as nat)),
            None => decimal_sum(
                a.mantissa as int,
                a.scale as nat,
                b.mantissa as int,
                b.scale as nat,
            ) is None,
        },
{
    let x = rust_decimal::Decimal::from_i128_with_scale(a.mantissa, a.scale);
    let y = rust_decimal::Decimal::from_i128_with_scale(b.mantissa, b.scale);
    let s = x.checked_add(y)?;
    Some(DecimalParts { mantissa: s.mantissa(), scale: s.scale() })
}

/// A quotient rounded to the nearest whole number, and to the even one in the
/// middle between two.
pub open spec fn half_even(m: int, d: int) -> int {
    let size = if m >= 0 {
        m
    } else {
        -m
    };
    let q = size / d;
    let r = size % d;
    let rounded = if 2 * r > d || (2 * r == d && q % 2 == 1) {
        q + 1
    } else {
        q
    };
    if m >= 0 {
        rounded
    } else {
        -rounded
    }
}

/// The nearest whole number, when it fits.
pub open spec fn whole(p: DecimalParts) -> Option<int> {
    let n = half_even(p.mantissa as int, pow10(p.scale as nat));
    if i64::MIN <= n <= i64::MAX {
        Some(n)
    } else {
        None
    }
}

/// `rust_decimal::Decimal::round` and its conversion to `i64`: the nearest whole
/// number, the even one in the middle between two, when it fits.
#[verifier::external_body]
pub(crate) fn round_to_i64(a: DecimalParts) -> (r: Option<i64>)
    requires
        a.wf(),
    ensures
        match r {
            Some(n) => whole(a) == Some(n as int),
            None => whole(a) is None,
        },
{
    let x = rust_decimal::Decimal::from_i128_with_scale(a.mantissa, a.scale);
    x.round().try_into().ok()
}

/// The amount in minor units of a decimal amount, when that many minor units can
/// be counted; zero otherwise.
pub open spec fn minor_amount(p: DecimalParts) -> int {
    match whole(p) {
        Some(n) => n,
        None => 0,
    }
}

/// The amount of a currency as a decimal number.
pub fn minor_to_decimal(amount_minor: i64, currency: &str) -> (r: DecimalParts)
    ensures
        r.wf(),
        (r.mantissa as int, r.scale as nat) == decimal_quotient(
            amount_minor as int,
            scale_of(uppercase(currency@)),
        ),
{
    divide(amount_minor, minor_unit_scale(currency))
}

/// The minor units of a product that was computed before, when that many can be
/// counted; zero otherwise.
pub fn minor_units_of(product: DecimalParts) -> (r: i64)
    requires
        product.wf(),
    ensures
        r == minor_amount(product),
{
    match round_to_i64(product) {
        Some(n) => n,
        None => 0,
    }
}

/// The minor units of a decimal amount of a currency.
pub fn decimal_to_minor(amount: DecimalParts, currency: &str) -> (r: i64)
    requires
        amount.wf(),
        decimal_product(
            amount.mantissa as int,
            amount.scale as nat,
            scale_of(uppercase(currency@)),
        ) is Some,
    ensures
        ({
            let product = decimal_product(
                amount.mantissa as int,
                amount.scale as nat,
                scale_of(uppercase(currency@)),
            )->0;
            r == minor_amount(
                DecimalParts { mantissa: product.0 as i128, scale: product.1 as u32 },
            )
        }),
{
    match checked_multiply(amount, minor_unit_scale(currency)) {
        Some(p) => minor_units_of(p),
        None => 0,
    }
}

/// The minor units of a decimal amount of a currency, unless the amount is too
/// large to be counted in them.
pub fn try_decimal_to_minor(amount: DecimalParts, currency: &str) -> (r: Option<i64>)
    requires
        amount.wf(),
    ensures
        match decimal_product(
            amount.mantissa as int,
            amount.scale as nat,
            scale_of(uppercase(currency@)),
        ) {
            Some(p) => r matches Some(n) && n == minor_amount(
                DecimalParts { mantissa: p.0 as i128, scale: p.1 as u32 },
            ),
            None => r is None,
        },
{
    match checked_multiply(amount, minor_unit_scale(currency)) {
        Some(_) => Some(decimal_to_minor(amount, currency)),
        None => None,
    }
}

/// A number is rounded to the nearest whole, to the even one of two that are equally near,
/// and below zero as above it.
pub proof fn law_halves_go_to_the_even_neighbour(m: int, d: int)
    requires
        m >= 0,
        d > 0,
    ensures
        2 * (half_even(m, d) * d - m) <= d,
        2 * (m - half_even(m, d) * d) <= d,
        2 * (m % d) == d ==> half_even(m, d) % 2 == 0,
        2 * (m % d) < d ==> half_even(m, d) == m / d,
        half_even(-m, d) == -half_even(m, d),
{
    assert(m == d * (m / d) + m % d && 0 <= m % d < d) by (nonlinear_arith)
        requires
            d > 0,
    ;
    let q = m / d;
    assert(d * q == q * d) by (nonlinear_arith);
    assert((q + 1) * d == q * d + d) by (nonlinear_arith);
}

/// Scaling a decimal number up and rounding it gives the amount in minor units, and nothing
/// where it cannot be held.
pub proof fn law_minor_amounts_are_rounded(p: DecimalParts)
    ensures
        ({
            let n = half_even(p.mantissa as int, pow10(p.scale as nat));
            &&& i64::MIN <= n <= i64::MAX ==> minor_amount(p) == n
            &&& !(i64::MIN <= n <= i64::MAX) ==> minor_amount(p) == 0
            &&& p.scale == 0 && i64::MIN <= p.mantissa <= i64::MAX ==> minor_amount(p) == p.mantissa
        }),
{
}

} // verus!
