//! Saturating counter arithmetic and fixed-point ratios.
//!
//! Counters are monotonic `u64` values that clamp at `u64::MAX` instead of
//! wrapping or aborting.  Ratios and averages are reported as scaled
//! integers: percentages in hundredths of a percent, millisecond averages in
//! hundredths of a millisecond, rounded half up.

use vstd::prelude::*;

verus! {

/// `a + b` clamped at `u64::MAX`.
pub open spec fn sat_add(a: u64, b: u64) -> u64 {
    if a + b > u64::MAX {
        u64::MAX
    } else {
        (a + b) as u64
    }
}

pub fn add_sat(a: u64, b: u64) -> (r: u64)
    ensures
        r == sat_add(a, b),
{
    if a <= u64::MAX - b {
        a + b
    } else {
        u64::MAX
    }
}

/// `round(scale * part / whole)` with half-up rounding, clamped at
/// `u64::MAX`; `0` when `whole` is `0`.
pub open spec fn scaled_ratio(part: u64, whole: u64, scale: u64) -> u64 {
    if whole == 0 {
        0
    } else {
        let r: int = (part * scale + whole / 2) / (whole as int);
        if r > u64::MAX {
            u64::MAX
        } else {
            r as u64
        }
    }
}

/// Exact integer computation of `scaled_ratio`, performed in 128 bits.
pub fn ratio_scaled(part: u64, whole: u64, scale: u64) -> (r: u64)
    ensures
        r == scaled_ratio(part, whole, scale),
{
    if whole == 0 {
        0
    } else {
        proof {
            assert((part as int) * (scale as int) <= (u64::MAX as int) * (u64::MAX as int))
                by (nonlinear_arith)
                requires
                    part <= u64::MAX,
                    scale <= u64::MAX,
            ;
        }
        let num: u128 = (part as u128) * (scale as u128) + (whole / 2) as u128;
        let q: u128 = num / (whole as u128);
        proof {
            assert(num == part * scale + whole / 2);
            assert(q == (part * scale + whole / 2) / (whole as int));
        }
        if q > u64::MAX as u128 {
            u64::MAX
        } else {
            q as u64
        }
    }
}

} // verus!
