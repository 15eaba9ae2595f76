//! Fractions in millionths, and the two ways this crate scales a count by one.

use vstd::prelude::*;

verus! {

/// The number of millionths in one.
pub const MILLION: u64 = 1_000_000;

/// A non-negative fraction, held as a whole number of millionths.
#[derive(Clone, Copy, Debug, PartialEq, Eq, Structural)]
pub struct Ratio {
    pub millionths: u64,
}

/// `floor(x * millionths / 1_000_000)`.
pub open spec fn scaled_floor(x: nat, millionths: nat) -> nat {
    (x * millionths) / (MILLION as nat)
}

/// `x * millionths / 1_000_000` rounded to the nearest whole number, halves upward.
pub open spec fn scaled_round(x: nat, millionths: nat) -> nat {
    (x * millionths + 500_000) / (MILLION as nat)
}

/// `floor(numer * 1_000_000 / denom)`, or `u64::MAX` where that does not fit.
pub open spec fn quotient_millionths(numer: nat, denom: nat) -> nat
    recommends
        denom > 0,
{
    let q = (numer * (MILLION as nat)) / denom;
    if q > u64::MAX {
        u64::MAX as nat
    } else {
        q
    }
}

impl Ratio {
    /// The fraction `parts / 1_000_000`.
    pub fn from_millionths(parts: u64) -> (r: Ratio)
        ensures
            r.millionths == parts,
    {
        Ratio { millionths: parts }
    }

    /// The fraction clamped into `[low, high]`.
    pub fn clamp(self, low: Ratio, high: Ratio) -> (r: Ratio)
        requires
            low.millionths <= high.millionths,
        ensures
            r.millionths == clamped(self.millionths as nat, low.millionths as nat, high.millionths as nat),
    {
        if self.millionths < low.millionths {
            low
        } else if self.millionths > high.millionths {
            high
        } else {
            self
        }
    }

    /// `floor(x * self)`, as a 128-bit number so that it always fits.
    pub fn floor_of(self, x: u64) -> (r: u128)
        ensures
            r == scaled_floor(x as nat, self.millionths as nat),
    {
        assert(x * self.millionths <= u64::MAX * u64::MAX) by (nonlinear_arith)
            requires
                x <= u64::MAX,
                self.millionths <= u64::MAX,
        ;
        (x as u128 * self.millionths as u128) / 1_000_000u128
    }

    /// `x * self` rounded to the nearest whole number, halves upward.
    pub fn round_of(self, x: u64) -> (r: u128)
        ensures
            r == scaled_round(x as nat, self.millionths as nat),
    {
        assert(x * self.millionths <= u64::MAX * u64::MAX) by (nonlinear_arith)
            requires
                x <= u64::MAX,
                self.millionths <= u64::MAX,
        ;
        (x as u128 * self.millionths as u128 + 500_000u128) / 1_000_000u128
    }

    /// The fraction `numer / denom`, rounded down to a millionth.
    pub fn of_quotient(numer: u64, denom: u64) -> (r: Ratio)
        requires
            denom > 0,
        ensures
            r.millionths == quotient_millionths(numer as nat, denom as nat),
    {
        let q: u128 = (numer as u128 * 1_000_000u128) / (denom as u128);
        if q > u64::MAX as u128 {
            Ratio { millionths: u64::MAX }
        } else {
            Ratio { millionths: q as u64 }
        }
    }
}

/// `value` clamped into `[low, high]`.
pub open spec fn clamped(value: nat, low: nat, high: nat) -> nat {
    if value < low {
        low
    } else if value > high {
        high
    } else {
        value
    }
}

/// Rounding to the nearest whole number: the result is within half a unit of
/// the exact product, and a product that ends in one half goes up.
pub proof fn lemma_scaled_round_is_nearest(x: nat, millionths: nat)
    ensures
        2 * (MILLION as nat) * scaled_round(x, millionths) <= 2 * x * millionths + (MILLION as nat),
        2 * x * millionths < 2 * (MILLION as nat) * scaled_round(x, millionths) + (MILLION as nat),
{
    let p = x * millionths + 500_000;
    let m = MILLION as nat;
    assert(p == m * (p / m) + p % m) by {
        vstd::arithmetic::div_mod::lemma_fundamental_div_mod(p as int, m as int);
    }
    assert(0 <= p % m < m);
    assert(2 * x * millionths == 2 * (x * millionths)) by (nonlinear_arith);
    assert(2 * m * (p / m) == 2 * (m * (p / m))) by (nonlinear_arith);
}

/// Scaling by a fraction of at most one never gives more than the count, and
/// scaling a positive count by at least one half gives at least one.
pub proof fn lemma_scaled_round_bounds(x: nat, millionths: nat)
    requires
        500_000 <= millionths <= 1_000_000,
    ensures
        scaled_round(x, millionths) <= x,
        x >= 1 ==> scaled_round(x, millionths) >= 1,
{
    let m = MILLION as nat;
    assert(x * millionths <= x * m) by (nonlinear_arith)
        requires
            millionths <= m,
    ;
    assert(x * millionths + 500_000 < (x + 1) * m) by (nonlinear_arith)
        requires
            x * millionths <= x * m,
            m == 1_000_000,
    ;
    vstd::arithmetic::div_mod::lemma_div_by_multiple_is_strongly_ordered(
        (x * millionths + 500_000) as int,
        ((x + 1) * m) as int,
        (x + 1) as int,
        m as int,
    );
    vstd::arithmetic::div_mod::lemma_div_by_multiple((x + 1) as int, m as int);
    if x >= 1 {
        assert(x * millionths >= 500_000) by (nonlinear_arith)
            requires
                x >= 1,
                millionths >= 500_000,
        ;
        vstd::arithmetic::div_mod::lemma_div_is_ordered(
            m as int,
            (x * millionths + 500_000) as int,
            m as int,
        );
    }
}

/// A fraction written with six decimals.
pub open spec fn ratio_text(millionths: u64) -> Seq<char> {
    crate::decimal::decimal_digits((millionths / 1_000_000) as nat) + "."@
        + crate::decimal::decimal_digits(((millionths / 100_000) % 10) as nat)
        + crate::decimal::decimal_digits(((millionths / 10_000) % 10) as nat)
        + crate::decimal::decimal_digits(((millionths / 1_000) % 10) as nat)
        + crate::decimal::decimal_digits(((millionths / 100) % 10) as nat)
        + crate::decimal::decimal_digits(((millionths / 10) % 10) as nat)
        + crate::decimal::decimal_digits((millionths % 10) as nat)
}

impl Ratio {
    /// Writes the fraction with six decimals.
    pub fn to_text(&self) -> (r: String)
        ensures
            r@ == ratio_text(self.millionths),
    {
        let m = self.millionths;
        crate::decimal::decimal((m / 1_000_000) as u128).concat(".").concat(
            crate::decimal::decimal(((m / 100_000) % 10) as u128).as_str(),
        ).concat(crate::decimal::decimal(((m / 10_000) % 10) as u128).as_str()).concat(
            crate::decimal::decimal(((m / 1_000) % 10) as u128).as_str(),
        ).concat(crate::decimal::decimal(((m / 100) % 10) as u128).as_str()).concat(
            crate::decimal::decimal(((m / 10) % 10) as u128).as_str(),
        ).concat(crate::decimal::decimal((m % 10) as u128).as_str())
    }
}

} // verus!
