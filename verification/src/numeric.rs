//! Integer arithmetic that the fixed-point computations share: rounding
//! division and the integer square root.

use vstd::prelude::*;
use vstd::arithmetic::div_mod::lemma_fundamental_div_mod;
use vstd::arithmetic::div_mod::lemma_fundamental_div_mod_converse;

verus! {

/// `r` is the square root of `n`, rounded down.
pub open spec fn is_sqrt_floor(n: int, r: int) -> bool {
    0 <= r && r * r <= n < (r + 1) * (r + 1)
}

/// The square root of `n`, rounded down.
pub open spec fn sqrt_floor(n: int) -> int {
    choose|r: int| is_sqrt_floor(n, r)
}

/// Squares grow with their base on the non-negative numbers.
pub proof fn lemma_square_monotonic(a: int, b: int)
    requires
        0 <= a <= b,
    ensures
        a * a <= b * b,
{
    assert(a * a <= b * b) by (nonlinear_arith)
        requires
            0 <= a <= b,
    ;
}

/// A number has one rounded-down square root only, so whatever meets
/// `is_sqrt_floor` is `sqrt_floor`.
pub proof fn lemma_sqrt_floor_unique(n: int, r: int)
    requires
        is_sqrt_floor(n, r),
    ensures
        sqrt_floor(n) == r,
{
    let c = sqrt_floor(n);
    assert(is_sqrt_floor(n, c));
    if c < r {
        lemma_square_monotonic(c + 1, r);
    } else if r < c {
        lemma_square_monotonic(r + 1, c);
    }
}

/// Integer square root, rounded down, by bisection.
pub fn isqrt(n: u128) -> (r: u64)
    ensures
        is_sqrt_floor(n as int, r as int),
        r as int == sqrt_floor(n as int),
{
    let mut lo: u128 = 0;
    let mut hi: u128 = 0x1_0000_0000_0000_0000;
    assert(lo * lo <= n);
    assert((hi as int) * (hi as int) > n as int) by (nonlinear_arith)
        requires
            hi == 0x1_0000_0000_0000_0000u128,
            n <= u128::MAX,
    ;
    while hi - lo > 1
        invariant
            lo < hi <= 0x1_0000_0000_0000_0000,
            (lo as int) * (lo as int) <= n as int,
            (n as int) < (hi as int) * (hi as int),
        decreases hi - lo,
    {
        let mid: u128 = lo + (hi - lo) / 2;
        assert((mid as int) * (mid as int) <= u128::MAX as int) by (nonlinear_arith)
            requires
                0 <= mid <= 0xFFFF_FFFF_FFFF_FFFFu128,
        ;
        let square: u128 = mid * mid;
        if square <= n {
            lo = mid;
        } else {
            hi = mid;
        }
    }
    proof {
        lemma_sqrt_floor_unique(n as int, lo as int);
    }
    lo as u64
}

/// Quotient rounded towards minus infinity, for a positive divisor.
pub fn floor_div(a: i64, b: i64) -> (q: i64)
    requires
        b > 0,
    ensures
        q as int == (a as int) / (b as int),
{
    if a >= 0 {
        a / b
    } else {
        let m: i64 = -(a + 1);
        let below: i64 = m / b;
        proof {
            let rest = (m as int) % (b as int);
            lemma_fundamental_div_mod(m as int, b as int);
            assert(0 <= rest < b);
            assert(0 <= below <= m) by (nonlinear_arith)
                requires
                    m as int == (b as int) * (below as int) + rest,
                    0 <= rest < b,
                    0 <= m,
                    b > 0,
            ;
            assert(a as int == (-(below as int) - 1) * (b as int) + (b as int - rest - 1))
                by (nonlinear_arith)
                requires
                    m as int == (b as int) * (below as int) + rest,
                    a as int == -(m as int) - 1,
            ;
            lemma_fundamental_div_mod_converse(
                a as int,
                b as int,
                -(below as int) - 1,
                b as int - rest - 1,
            );
        }
        -below - 1
    }
}

} // verus!
