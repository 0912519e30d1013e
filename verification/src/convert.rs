//! Overflow-checked conversion of a points balance into a payout amount.
//!
//! The payout for `p` points at rate `r` (points per whole payout unit) is
//! `floor(p * SCALE / r)` smallest-denomination units, where [`SCALE`] is the
//! number of smallest-denomination units in one whole unit. The intermediate
//! product is computed in 128-bit precision, so it can never silently wrap.

use vstd::arithmetic::div_mod::{lemma_div_is_ordered, lemma_div_is_ordered_by_denominator};
use vstd::arithmetic::mul::lemma_mul_inequality;
use vstd::prelude::*;

use crate::errors::ErrorCode;

verus! {

/// Smallest-denomination units per whole unit of payout currency.
pub const SCALE: u64 = 1_000_000_000;

/// The payout, as an unbounded integer, for `p` points at rate `r`.
pub open spec fn convert_spec(p: u64, r: u64) -> int
    recommends
        r > 0,
{
    (p as int) * (SCALE as int) / (r as int)
}

/// Converts a points balance into a payout amount in smallest-denomination
/// units. Fails rather than divide by a zero rate, and fails rather than
/// truncate a payout that does not fit the payout type.
pub fn convert(p: u64, r: u64) -> (res: Result<u64, ErrorCode>)
    ensures
        r == 0 ==> res == Err::<u64, ErrorCode>(ErrorCode::InvalidConversionRate),
        r > 0 && convert_spec(p, r) <= u64::MAX ==> res == Ok::<u64, ErrorCode>(
            convert_spec(p, r) as u64,
        ),
        r > 0 && convert_spec(p, r) > u64::MAX ==> res == Err::<u64, ErrorCode>(
            ErrorCode::Overflow,
        ),
{
    if r == 0 {
        return Err(ErrorCode::InvalidConversionRate);
    }
    proof {
        lemma_mul_inequality(p as int, u64::MAX as int, SCALE as int);
    }
    let product: u128 = (p as u128) * (SCALE as u128);
    let quotient: u128 = product / (r as u128);
    if quotient > u64::MAX as u128 {
        Err(ErrorCode::Overflow)
    } else {
        Ok(quotient as u64)
    }
}

/// Law: for a fixed positive rate, the payout is monotonically non-decreasing
/// in the points balance.
pub proof fn lemma_convert_monotone_in_points(p1: u64, p2: u64, r: u64)
    requires
        p1 <= p2,
        r > 0,
    ensures
        convert_spec(p1, r) <= convert_spec(p2, r),
{
    lemma_mul_inequality(p1 as int, p2 as int, SCALE as int);
    lemma_div_is_ordered((p1 as int) * (SCALE as int), (p2 as int) * (SCALE as int), r as int);
}

/// Law: for a fixed points balance, the payout is monotonically non-increasing
/// in the rate.
pub proof fn lemma_convert_antitone_in_rate(p: u64, r1: u64, r2: u64)
    requires
        0 < r1 <= r2,
    ensures
        convert_spec(p, r1) >= convert_spec(p, r2),
{
    lemma_mul_inequality(0, p as int, SCALE as int);
    lemma_div_is_ordered_by_denominator((p as int) * (SCALE as int), r1 as int, r2 as int);
}

/// Law: a zero points balance converts to a zero payout at every valid rate.
pub proof fn lemma_convert_zero_points(r: u64)
    requires
        r > 0,
    ensures
        convert_spec(0, r) == 0,
{
}

} // verus!
