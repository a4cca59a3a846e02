//! Integer helpers shared by the fixed-point computations of the crate.

use vstd::prelude::*;
use vstd::arithmetic::div_mod::lemma_fundamental_div_mod;
use vstd::arithmetic::div_mod::lemma_mod_bound;

verus! {

/// `v` forced into the closed interval from `lo` to `hi`.
pub open spec fn clamp(v: int, lo: int, hi: int) -> int {
    if v < lo {
        lo
    } else if v > hi {
        hi
    } else {
        v
    }
}

/// The quotient `a / b` rounded towards negative infinity.
pub open spec fn floor_div(a: int, b: int) -> int
    recommends
        b > 0,
{
    a / b
}

/// The floor of a quotient lies within one divisor of the exact value.
pub proof fn lemma_floor_div_bounds(a: int, b: int)
    requires
        b > 0,
    ensures
        floor_div(a, b) * b <= a < (floor_div(a, b) + 1) * b,
{
    lemma_fundamental_div_mod(a, b);
    lemma_mod_bound(a, b);
    assert(b * (a / b) == (a / b) * b) by (nonlinear_arith);
    assert((a / b + 1) * b == (a / b) * b + b) by (nonlinear_arith);
}

/// The floor of a quotient is no larger in magnitude than the dividend.
pub proof fn lemma_floor_div_magnitude(a: int, b: int)
    requires
        b > 0,
    ensures
        a >= 0 ==> 0 <= floor_div(a, b) <= a,
        a < 0 ==> a <= floor_div(a, b) < 0,
{
    lemma_floor_div_bounds(a, b);
    let q = a / b;
    if a >= 0 {
        assert(q >= 0) by (nonlinear_arith)
            requires
                b > 0,
                a >= 0,
                a < (q + 1) * b,
        ;
        assert(q <= a) by (nonlinear_arith)
            requires
                b > 0,
                q >= 0,
                q * b <= a,
        ;
    } else {
        assert(q < 0) by (nonlinear_arith)
            requires
                b > 0,
                a < 0,
                q * b <= a,
        ;
        assert(q >= a) by (nonlinear_arith)
            requires
                b > 0,
                q < 0,
                a < (q + 1) * b,
        ;
    }
}

} // verus!
