//! Fixed-point scalar arithmetic in thousandths of a unit.

use vstd::prelude::*;

verus! {

/// One whole unit in fixed-point thousandths.
pub const MILLI: i64 = 1000;

/// Truncating (round-toward-zero) division, as Rust's `/` computes it,
/// stated over mathematical integers.
pub open spec fn tdiv(a: int, b: int) -> int {
    if a >= 0 {
        a / b
    } else {
        -((-a) / b)
    }
}

/// The product of two fixed-point scalars, scaled back down: `a * b / 1000`
/// with truncation toward zero.
pub fn mul_div_milli(a: i64, b: i64) -> (r: i64)
    requires
        i64::MIN <= a * b <= i64::MAX,
    ensures
        r == tdiv(a * b, MILLI as int),
{
    let p: i64 = a * b;
    p / MILLI
}

/// A product of bounded factors is bounded by the product of the bounds.
pub proof fn lemma_mul_bound(a: int, b: int, ca: int, cb: int)
    by (nonlinear_arith)
    requires
        -ca <= a <= ca,
        -cb <= b <= cb,
        ca >= 0,
        cb >= 0,
    ensures
        -(ca * cb) <= a * b <= ca * cb,
{
}

/// Scaling down a bounded value bounds the result by the scaled bound.
pub proof fn lemma_tdiv_bound(a: int, cap: int)
    by (nonlinear_arith)
    requires
        -cap <= a <= cap,
        cap >= 0,
    ensures
        -(cap / (MILLI as int)) <= tdiv(a, MILLI as int) <= cap / (MILLI as int),
{
}

/// Whether `r` is the integer square root of `n`.
pub open spec fn is_sqrt(n: nat, r: nat) -> bool {
    r * r <= n < (r + 1) * (r + 1)
}

/// The integer square root (rounded down) of a natural number.
pub open spec fn sqrt_nat(n: nat) -> nat {
    choose|r: nat| is_sqrt(n, r)
}

/// The integer square root is unique, so `sqrt_nat` agrees with any witness.
pub proof fn lemma_sqrt_nat_unique(n: nat, r: nat)
    requires
        is_sqrt(n, r),
    ensures
        sqrt_nat(n) == r,
{
    assert(exists|q: nat| is_sqrt(n, q)) by {
        assert(is_sqrt(n, r));
    }
    let q = choose|q: nat| is_sqrt(n, q);
    assert(q == r) by (nonlinear_arith)
        requires
            is_sqrt(n, q),
            is_sqrt(n, r),
    ;
}

/// Integer square root of a machine word, by bisection.
pub fn isqrt(n: u64) -> (r: u64)
    ensures
        is_sqrt(n as nat, r as nat),
        r == sqrt_nat(n as nat),
        r < 0x1_0000_0000,
{
    let mut lo: u64 = 0;
    let mut hi: u64 = 0x1_0000_0000;
    assert((hi * hi) as int > n as int) by (nonlinear_arith)
        requires
            hi == 0x1_0000_0000u64,
            n <= u64::MAX,
    ;
    while lo + 1 < hi
        invariant
            lo < hi <= 0x1_0000_0000,
            lo * lo <= n,
            n < hi * hi,
        decreases hi - lo,
    {
        let mid: u64 = lo + (hi - lo) / 2;
        assert(mid * mid <= u64::MAX) by (nonlinear_arith)
            requires
                mid < 0x1_0000_0000u64,
        ;
        if mid * mid <= n {
            lo = mid;
        } else {
            hi = mid;
        }
    }
    proof {
        lemma_sqrt_nat_unique(n as nat, lo as nat);
    }
    lo
}

} // verus!
