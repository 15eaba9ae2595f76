//! The size gate: an encode is kept only if it is smaller than a set fraction
//! of the original.

use vstd::prelude::*;
use crate::decimal::{decimal, decimal_digits};
use crate::ratio::{quotient_millionths, scaled_floor, Ratio, MILLION};

verus! {

/// What the size gate decided.
#[derive(Debug, Clone, Copy, PartialEq, Eq)]
pub enum SizeGateResult {
    /// The output is small enough.
    Accept,
    /// The output is too large. `ratio` is output over original, rounded down
    /// to a millionth; `None` stands for an original of zero bytes, where the
    /// ratio is unbounded.
    Reject { original_bytes: u64, output_bytes: u64, ratio: Option<Ratio> },
}

/// Output over original, or `None` where the original is empty.
pub open spec fn actual_ratio(original_bytes: u64, output_bytes: u64) -> Option<Ratio> {
    if original_bytes == 0 {
        None
    } else {
        Some(
            Ratio {
                millionths: quotient_millionths(output_bytes as nat, original_bytes as nat) as u64,
            },
        )
    }
}

/// The size gate's rule: accept exactly when the output is below
/// `floor(original * max_ratio)`.
pub open spec fn size_gate(original_bytes: u64, output_bytes: u64, max_ratio: Ratio) -> SizeGateResult {
    if (output_bytes as nat) < scaled_floor(original_bytes as nat, max_ratio.millionths as nat) {
        SizeGateResult::Accept
    } else {
        SizeGateResult::Reject {
            original_bytes,
            output_bytes,
            ratio: actual_ratio(original_bytes, output_bytes),
        }
    }
}

/// Decides whether an output of `output_bytes` may replace an original of
/// `original_bytes`.
pub fn check_size_gate(original_bytes: u64, output_bytes: u64, max_ratio: Ratio) -> (r:
    SizeGateResult)
    ensures
        r == size_gate(original_bytes, output_bytes, max_ratio),
{
    let threshold: u128 = max_ratio.floor_of(original_bytes);
    if (output_bytes as u128) < threshold {
        SizeGateResult::Accept
    } else {
        let ratio = if original_bytes == 0 {
            None
        } else {
            Some(Ratio::of_quotient(output_bytes, original_bytes))
        };
        SizeGateResult::Reject { original_bytes, output_bytes, ratio }
    }
}

/// The size gate accepts exactly when the output is below the floor of the scaled
/// original; said without division, when `(output + 1) * 1_000_000` is at most
/// `original * millionths`.
pub proof fn lemma_accept_iff_below_threshold(original_bytes: u64, output_bytes: u64, max_ratio: Ratio)
    ensures
        size_gate(original_bytes, output_bytes, max_ratio) is Accept <==> (output_bytes as nat)
            < scaled_floor(original_bytes as nat, max_ratio.millionths as nat),
        size_gate(original_bytes, output_bytes, max_ratio) is Accept <==> (output_bytes + 1)
            * MILLION <= original_bytes * max_ratio.millionths,
{
    let p = (original_bytes as nat) * (max_ratio.millionths as nat);
    let m = MILLION as nat;
    vstd::arithmetic::div_mod::lemma_fundamental_div_mod(p as int, m as int);
    assert(p == m * (p / m) + p % m);
    assert(0 <= p % m < m);
    let q = p / m;
    let o = output_bytes as nat;
    if o < q {
        assert((o + 1) * m <= q * m) by (nonlinear_arith)
            requires
                o + 1 <= q,
        ;
        assert(m * q == q * m) by (nonlinear_arith);
    } else {
        assert((o + 1) * m >= (q + 1) * m) by (nonlinear_arith)
            requires
                o >= q,
        ;
        assert((q + 1) * m == m * q + m) by (nonlinear_arith);
    }
}

/// An output at least as large as the original never passes a limit of at
/// most one, and nothing passes against an empty original.
pub proof fn lemma_no_gain_is_rejected(original_bytes: u64, output_bytes: u64, max_ratio: Ratio)
    requires
        original_bytes == 0 || (max_ratio.millionths <= MILLION && output_bytes >= original_bytes),
    ensures
        size_gate(original_bytes, output_bytes, max_ratio) is Reject,
{
    lemma_accept_iff_below_threshold(original_bytes, output_bytes, max_ratio);
    if original_bytes == 0 {
        assert(original_bytes * max_ratio.millionths == 0) by (nonlinear_arith)
            requires
                original_bytes == 0,
        ;
        assert((output_bytes + 1) * MILLION > 0) by (nonlinear_arith);
    } else {
        assert((output_bytes + 1) * MILLION > original_bytes * max_ratio.millionths)
            by (nonlinear_arith)
            requires
                max_ratio.millionths <= MILLION,
                output_bytes >= original_bytes,
        ;
    }
}

/// The output as a share of the original in tenths of a percent, rounded to
/// the nearest, halves upward.
pub open spec fn percent_tenths(original_bytes: u64, output_bytes: u64) -> nat
    recommends
        original_bytes > 0,
{
    ((output_bytes as nat) * 2000 + original_bytes as nat) / (2 * (original_bytes as nat))
}

/// A fraction in hundredths, rounded to the nearest, halves upward.
pub open spec fn hundredths(ratio: Ratio) -> nat {
    ((ratio.millionths as nat) + 5000) / 10000
}

/// The text that explains a rejection: the sizes, the output as a percentage
/// of the original with one decimal (`inf` for an empty original), and the
/// limit with two decimals.
pub open spec fn rejection_reason(original_bytes: u64, output_bytes: u64, max_ratio: Ratio) -> Seq<
    char,
> {
    let share = if original_bytes == 0 {
        "inf"@
    } else {
        decimal_digits(percent_tenths(original_bytes, output_bytes) / 10) + "."@ + decimal_digits(
            percent_tenths(original_bytes, output_bytes) % 10,
        )
    };
    let limit = decimal_digits(hundredths(max_ratio) / 100) + "."@ + decimal_digits(
        (hundredths(max_ratio) / 10) % 10,
    ) + decimal_digits(hundredths(max_ratio) % 10);
    "Size gate rejected: output "@ + decimal_digits(output_bytes as nat) + " bytes ("@ + share
        + "%) >= original "@ + decimal_digits(original_bytes as nat) + " bytes * "@ + limit
}

/// Writes the explanation of a rejection.
pub fn describe_rejection(original_bytes: u64, output_bytes: u64, max_ratio: Ratio) -> (r: String)
    ensures
        r@ == rejection_reason(original_bytes, output_bytes, max_ratio),
{
    let share = if original_bytes == 0 {
        String::from_str("inf")
    } else {
        let tenths: u128 = (output_bytes as u128 * 2000 + original_bytes as u128) / (2
            * original_bytes as u128);
        decimal(tenths / 10).concat(".").concat(decimal(tenths % 10).as_str())
    };
    let h: u128 = (max_ratio.millionths as u128 + 5000) / 10000;
    let limit = decimal(h / 100).concat(".").concat(decimal((h / 10) % 10).as_str()).concat(
        decimal(h % 10).as_str(),
    );
    String::from_str("Size gate rejected: output ").concat(decimal(output_bytes as u128).as_str())
        .concat(" bytes (").concat(share.as_str()).concat("%) >= original ").concat(
        decimal(original_bytes as u128).as_str(),
    ).concat(" bytes * ").concat(limit.as_str())
}

} // verus!
