//! Sums of even squares below a bound.
use vstd::prelude::*;
use crate::basics::is_even;

verus! {

/// The sum of the even squares `j * j` with `i <= j` and `j * j <= limit`.
pub open spec fn even_squares_from(i: nat, limit: nat) -> nat
    decreases limit + 1 - i,
{
    if i > limit || i * i > limit {
        0
    } else {
        (if (i * i) % 2 == 0 { i * i } else { 0 }) + even_squares_from(i + 1, limit)
    }
}

/// Sums the even squares `0, 4, 16, ...` that do not exceed `limit`, walking
/// the squares upwards until one passes `limit`. The walk needs the first
/// square above `limit` to fit in `u32`.
pub fn sum_even_squares(limit: u32) -> (r: u64)
    requires
        limit < 65535 * 65535,
    ensures
        r == even_squares_from(0, limit as nat),
{
    let mut sum: u64 = 0;
    let mut i: u32 = 0;
    loop
        invariant
            limit < 65535 * 65535,
            i == 0 || (i - 1) * (i - 1) <= limit,
            i <= limit + 1,
            sum <= i * limit,
            sum + even_squares_from(i as nat, limit as nat) == even_squares_from(0, limit as nat),
        decreases limit + 1 - i,
    {
        assert(i < 65536) by (nonlinear_arith)
            requires
                i == 0 || (i - 1) * (i - 1) <= limit,
                limit < 65535 * 65535,
        ;
        assert(i * i <= 65535 * 65535) by (nonlinear_arith)
            requires
                i <= 65535,
        ;
        let square = i * i;
        if square > limit {
            return sum;
        }
        if is_even(square) {
            assert(sum + square <= (i + 1) * limit) by (nonlinear_arith)
                requires
                    sum <= i * limit,
                    square <= limit,
            ;
            assert((i + 1) * limit <= 65536 * 4294967295) by (nonlinear_arith)
                requires
                    i < 65536,
                    limit <= 4294967295,
            ;
            sum = sum + square as u64;
        } else {
            assert(sum <= (i + 1) * limit) by (nonlinear_arith)
                requires
                    sum <= i * limit,
            ;
        }
        assert(i <= limit) by (nonlinear_arith)
            requires
                i * i <= limit,
        ;
        i = i + 1;
    }
}

} // verus!
