//! Fixed-point decimal numbers with 18 fractional digits.
//!
//! A `Decimal` holds a non-negative value as an integer count of atto-units
//! (10^-18), the same representation that `cosmwasm_std::Decimal` uses.
//! Collateral amounts, debt amounts, prices and health ratios are all kept in
//! this form. Addition, subtraction and comparisons are implemented and
//! verified here directly; multiplication and division, which need a 256-bit
//! intermediate, are delegated to `cosmwasm_std` behind contracts that state
//! the exact rounded-down result.
use vstd::arithmetic::div_mod::{
    lemma_div_is_ordered, lemma_div_multiples_vanish, lemma_fundamental_div_mod,
    lemma_remainder_lower,
};
use vstd::arithmetic::mul::{lemma_mul_inequality, lemma_mul_strict_inequality};
use vstd::prelude::*;

verus! {

/// Number of atto-units in one whole unit.
pub const SCALE: u128 = 1_000_000_000_000_000_000;

/// Number of atto-units in one minor unit of a 6-decimal token.
///
/// Native coin amounts and token amounts cross the contract boundary as
/// integer minor units (millionths of a whole unit); one minor unit is
/// 10^12 atto-units.
pub const MINOR_UNIT: u128 = 1_000_000_000_000;

/// Product of two fixed-point values, rounded down.
pub open spec fn mul_floor(a: int, b: int) -> int {
    (a * b) / (SCALE as int)
}

/// Quotient of two fixed-point values, rounded down.
pub open spec fn div_floor(a: int, b: int) -> int {
    (a * (SCALE as int)) / b
}

/// A non-negative fixed-point number: `atto` counts units of 10^-18.
#[derive(Clone, Copy, Debug, PartialEq, Eq, Structural)]
pub struct Decimal {
    pub atto: u128,
}

impl View for Decimal {
    type V = int;

    open spec fn view(&self) -> int {
        self.atto as int
    }
}

impl Decimal {
    /// The value zero.
    pub fn zero() -> (r: Decimal)
        ensures
            r@ == 0,
    {
        Decimal { atto: 0 }
    }

    /// Builds a value directly from a count of atto-units.
    pub fn from_atto(atto: u128) -> (r: Decimal)
        ensures
            r@ == atto,
    {
        Decimal { atto }
    }

    /// `x` hundredths, e.g. `percent(130)` is 1.3.
    pub fn percent(x: u64) -> (r: Decimal)
        ensures
            r@ == x * 10_000_000_000_000_000,
    {
        Decimal { atto: (x as u128) * 10_000_000_000_000_000 }
    }

    /// `x` thousandths, e.g. `permille(3)` is 0.003.
    pub fn permille(x: u64) -> (r: Decimal)
        ensures
            r@ == x * 1_000_000_000_000_000,
    {
        Decimal { atto: (x as u128) * 1_000_000_000_000_000 }
    }

    /// Converts an integer count of minor units (millionths) to a decimal.
    pub fn from_minor_units(m: u128) -> (r: Decimal)
        requires
            m * MINOR_UNIT <= u128::MAX,
        ensures
            r@ == m * MINOR_UNIT,
    {
        Decimal { atto: m * MINOR_UNIT }
    }

    /// The value as a count of minor units, rounded down.
    pub fn to_minor_units(&self) -> (r: u128)
        ensures
            r == self@ / (MINOR_UNIT as int),
    {
        self.atto / MINOR_UNIT
    }

    pub fn is_zero(&self) -> (r: bool)
        ensures
            r == (self@ == 0),
    {
        self.atto == 0
    }

    pub fn lt(&self, other: &Decimal) -> (r: bool)
        ensures
            r == (self@ < other@),
    {
        self.atto < other.atto
    }

    pub fn le(&self, other: &Decimal) -> (r: bool)
        ensures
            r == (self@ <= other@),
    {
        self.atto <= other.atto
    }

    pub fn gt(&self, other: &Decimal) -> (r: bool)
        ensures
            r == (self@ > other@),
    {
        self.atto > other.atto
    }

    pub fn ge(&self, other: &Decimal) -> (r: bool)
        ensures
            r == (self@ >= other@),
    {
        self.atto >= other.atto
    }

    /// Sum, or `None` when the result would not be representable.
    pub fn checked_add(self, other: Decimal) -> (r: Option<Decimal>)
        ensures
            self@ + other@ <= u128::MAX ==> r == Some(Decimal { atto: (self@ + other@) as u128 }),
            self@ + other@ > u128::MAX ==> r is None,
    {
        match self.atto.checked_add(other.atto) {
            Some(atto) => Some(Decimal { atto }),
            None => None,
        }
    }

    /// Difference; the subtrahend must not exceed the minuend.
    pub fn sub(self, other: Decimal) -> (r: Decimal)
        requires
            other@ <= self@,
        ensures
            r@ == self@ - other@,
    {
        Decimal { atto: self.atto - other.atto }
    }

    /// Product rounded down to the nearest atto-unit, or `None` when the
    /// result would not be representable.
    ///
    /// Relies on `cosmwasm_std::Decimal::checked_mul`, which computes
    /// `self.atomics() * other.atomics() / 10^18` in 256-bit arithmetic,
    /// rounds down, and fails exactly when the result exceeds `u128::MAX`.
    #[verifier::external_body]
    pub(crate) fn checked_mul(self, other: Decimal) -> (r: Option<Decimal>)
        ensures
            mul_floor(self@, other@) <= u128::MAX ==> r == Some(
                Decimal { atto: mul_floor(self@, other@) as u128 },
            ),
            mul_floor(self@, other@) > u128::MAX ==> r is None,
    {
        cosmwasm_std::Decimal::raw(self.atto)
            .checked_mul(cosmwasm_std::Decimal::raw(other.atto))
            .map(|d: cosmwasm_std::Decimal| Decimal { atto: d.atomics().u128() })
            .ok()
    }

    /// Quotient rounded down to the nearest atto-unit; `None` on division by
    /// zero or when the result would not be representable.
    ///
    /// Relies on `cosmwasm_std::Decimal::checked_div`, which computes
    /// `self.atomics() * 10^18 / other.atomics()` in 256-bit arithmetic,
    /// rounds down, and fails exactly on a zero divisor or a result above
    /// `u128::MAX`.
    #[verifier::external_body]
    pub(crate) fn checked_div(self, other: Decimal) -> (r: Option<Decimal>)
        ensures
            other@ == 0 ==> r is None,
            other@ > 0 && div_floor(self@, other@) <= u128::MAX ==> r == Some(
                Decimal { atto: div_floor(self@, other@) as u128 },
            ),
            other@ > 0 && div_floor(self@, other@) > u128::MAX ==> r is None,
    {
        cosmwasm_std::Decimal::raw(self.atto)
            .checked_div(cosmwasm_std::Decimal::raw(other.atto))
            .map(|d: cosmwasm_std::Decimal| Decimal { atto: d.atomics().u128() })
            .ok()
    }
}

/// A product with a factor below one stays below the other factor.
pub proof fn lemma_mul_floor_below(a: int, r: int)
    requires
        0 < a,
        0 <= r < SCALE,
    ensures
        0 <= mul_floor(a, r) < a,
{
    let s = SCALE as int;
    lemma_mul_strict_inequality(r, s, a);
    assert(r * a < s * a);
    assert(a * r < a * s) by (nonlinear_arith)
        requires
            r * a < s * a,
    ;
    vstd::arithmetic::div_mod::lemma_div_pos_is_pos(a * r, s);
    vstd::arithmetic::div_mod::lemma_multiply_divide_lt(a * r, a, s);
    assert(a * r >= 0) by (nonlinear_arith)
        requires
            a > 0,
            r >= 0,
    ;
}

/// Growing the dividend cannot shrink a rounded-down quotient.
pub proof fn lemma_mul_floor_monotone(a: int, b: int, r: int)
    requires
        0 <= a <= b,
        0 <= r,
    ensures
        mul_floor(a, r) <= mul_floor(b, r),
{
    let s = SCALE as int;
    lemma_mul_inequality(a, b, r);
    lemma_div_is_ordered(a * r, b * r, s);
}

/// If `d` is no more than the rounded-down quotient `v * SCALE / t`, then
/// dividing `v * SCALE` by `d` instead gives back at least `t`.
///
/// This is the arithmetic heart of the minting rule: a debt chosen within
/// the computed ceiling keeps the health ratio at or above the threshold.
pub proof fn lemma_div_floor_inverts(v: int, t: int, d: int)
    requires
        0 <= v,
        0 < t,
        0 < d,
        d <= div_floor(v, t),
    ensures
        div_floor(v, d) >= t,
{
    let s = SCALE as int;
    let q = (v * s) / t;
    assert(v * s >= 0) by (nonlinear_arith)
        requires
            v >= 0,
            s > 0,
    ;
    // q * t <= v * s
    lemma_fundamental_div_mod(v * s, t);
    lemma_remainder_lower(v * s, t);
    assert(q * t <= v * s);
    // d * t <= q * t
    lemma_mul_inequality(d, q, t);
    assert(d * t <= q * t);
    // (d * t) / d == t and division is ordered
    lemma_div_is_ordered(d * t, v * s, d);
    lemma_div_multiples_vanish(t, d);
    assert(d * t == t * d) by (nonlinear_arith);
    assert((d * t) / d == t);
}

} // verus!
