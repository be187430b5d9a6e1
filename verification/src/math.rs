//! Integer square roots and the facts about integer division that the
//! liquidity curve needs.

use vstd::prelude::*;

verus! {

/// The integer square root: the largest `r` with `r * r <= n`.
pub open spec fn root(n: nat) -> nat
    decreases n,
{
    if n == 0 {
        0
    } else {
        let r = root((n - 1) as nat);
        if (r + 1) * (r + 1) <= n {
            r + 1
        } else {
            r
        }
    }
}

/// `root(n)` is the largest integer whose square is at most `n`.
pub proof fn lemma_root_bounds(n: nat)
    ensures
        root(n) * root(n) <= n < (root(n) + 1) * (root(n) + 1),
    decreases n,
{
    let q = root(n);
    if n == 0 {
        assert(q * q <= n < (q + 1) * (q + 1)) by (nonlinear_arith)
            requires
                q == 0,
                n == 0,
        ;
    } else {
        lemma_root_bounds((n - 1) as nat);
        let r = root((n - 1) as nat);
        if (r + 1) * (r + 1) <= n {
            assert(q * q <= n < (q + 1) * (q + 1)) by (nonlinear_arith)
                requires
                    q == r + 1,
                    (r + 1) * (r + 1) <= n,
                    n - 1 < (r + 1) * (r + 1),
            ;
        } else {
            assert(q * q <= n < (q + 1) * (q + 1)) by (nonlinear_arith)
                requires
                    q == r,
                    r * r <= n - 1,
                    !((r + 1) * (r + 1) <= n),
            ;
        }
    }
}

/// Only one integer has the two bounds of a square root.
pub proof fn lemma_root_unique(n: nat, r: nat)
    requires
        r * r <= n < (r + 1) * (r + 1),
    ensures
        r == root(n),
{
    lemma_root_bounds(n);
    let q = root(n);
    if r < q {
        assert((r + 1) * (r + 1) <= q * q) by (nonlinear_arith)
            requires
                r + 1 <= q,
        ;
    } else if q < r {
        assert((q + 1) * (q + 1) <= r * r) by (nonlinear_arith)
            requires
                q + 1 <= r,
        ;
    }
}

/// The square root grows with its argument.
pub proof fn lemma_root_monotonic(a: nat, b: nat)
    requires
        a <= b,
    ensures
        root(a) <= root(b),
{
    lemma_root_bounds(a);
    lemma_root_bounds(b);
    let p = root(a);
    let q = root(b);
    if q < p {
        assert((q + 1) * (q + 1) <= p * p) by (nonlinear_arith)
            requires
                q + 1 <= p,
        ;
    }
}

/// The square root lies between the roots of two squares that enclose the
/// argument.
pub proof fn lemma_root_between(n: nat, lo: nat, hi: nat)
    requires
        lo * lo <= n <= hi * hi,
    ensures
        lo <= root(n) <= hi,
{
    lemma_root_bounds(n);
    let r = root(n);
    if r < lo {
        assert((r + 1) * (r + 1) <= lo * lo) by (nonlinear_arith)
            requires
                r + 1 <= lo,
        ;
    }
    if hi < r {
        assert((hi + 1) * (hi + 1) <= r * r) by (nonlinear_arith)
            requires
                hi + 1 <= r,
        ;
        assert(hi * hi < (hi + 1) * (hi + 1)) by (nonlinear_arith);
    }
}

/// Computes the integer square root by bisection.
pub fn isqrt(n: u64) -> (r: u64)
    ensures
        r == root(n as nat),
        r * r <= n < (r + 1) * (r + 1),
{
    let mut lo: u64 = 0;
    let mut hi: u64 = 0x1_0000_0000;
    assert(0x1_0000_0000u64 * 0x1_0000_0000u64 > n) by (nonlinear_arith);
    while hi - lo > 1
        invariant
            lo < hi <= 0x1_0000_0000,
            lo * lo <= n < hi * hi,
        decreases hi - lo,
    {
        let mid: u64 = lo + (hi - lo) / 2;
        assert(mid * mid <= 0xffff_ffff * 0xffff_ffff) by (nonlinear_arith)
            requires
                0 <= mid <= 0xffff_ffff,
        ;
        if mid * mid <= n {
            lo = mid;
        } else {
            hi = mid;
        }
    }
    proof {
        lemma_root_unique(n as nat, lo as nat);
    }
    lo
}

/// Of two fractions with positive denominators, the one that is not larger
/// has the floor that is not larger.
pub proof fn lemma_floor_div_ordered(a: int, b: int, c: int, d: int)
    requires
        0 <= a,
        0 <= c,
        0 < b,
        0 < d,
        a * d <= c * b,
    ensures
        a / b <= c / d,
{
    let q = a / b;
    assert(q * b <= a && 0 <= q) by (nonlinear_arith)
        requires
            q == a / b,
            0 <= a,
            0 < b,
    ;
    assert(q * b * d <= a * d) by (nonlinear_arith)
        requires
            q * b <= a,
            0 < d,
    ;
    assert(q * d <= c) by (nonlinear_arith)
        requires
            q * b * d <= c * b,
            0 < b,
    ;
    assert(q <= c / d) by (nonlinear_arith)
        requires
            q * d <= c,
            0 < d,
    ;
}

/// The share `(u - i) / u` of a scaled amount grows with `u`:
/// `x * (u - i) / (r * u) <= x * (v - i) / (r * v)` for `u <= v`, both
/// rounded down.
pub proof fn lemma_share_grows(x: int, r: int, i: int, u: int, v: int)
    requires
        0 <= x,
        0 < r,
        0 <= i <= u <= v,
        0 < u,
    ensures
        (x * (u - i)) / (r * u) <= (x * (v - i)) / (r * v),
{
    assert((u - i) * v <= (v - i) * u) by (nonlinear_arith)
        requires
            0 <= i,
            u <= v,
    ;
    assert((x * r) * ((u - i) * v) <= (x * r) * ((v - i) * u)) by (nonlinear_arith)
        requires
            (u - i) * v <= (v - i) * u,
            0 <= x,
            0 < r,
    ;
    assert((x * (u - i)) * (r * v) == (x * r) * ((u - i) * v)) by (nonlinear_arith);
    assert((x * (v - i)) * (r * u) == (x * r) * ((v - i) * u)) by (nonlinear_arith);
    assert(0 < r * u && 0 < r * v && 0 <= x * (u - i) && 0 <= x * (v - i)) by (nonlinear_arith)
        requires
            0 <= x,
            0 < r,
            0 <= i <= u <= v,
            0 < u,
    ;
    lemma_floor_div_ordered(x * (u - i), r * u, x * (v - i), r * v);
}

/// The ratio `(i - u) / u` of a scaled amount grows as `u` falls:
/// `y * (i - u) / (m * u) <= y * (i - v) / (m * v)` for `v <= u`, both
/// rounded down.
pub proof fn lemma_ratio_grows_downwards(y: int, m: int, i: int, u: int, v: int)
    requires
        0 <= y,
        0 < m,
        0 < v <= u <= i,
    ensures
        (y * (i - u)) / (m * u) <= (y * (i - v)) / (m * v),
{
    assert((i - u) * v <= (i - v) * u) by (nonlinear_arith)
        requires
            0 <= i,
            v <= u,
    ;
    assert((y * m) * ((i - u) * v) <= (y * m) * ((i - v) * u)) by (nonlinear_arith)
        requires
            (i - u) * v <= (i - v) * u,
            0 <= y,
            0 < m,
    ;
    assert((y * (i - u)) * (m * v) == (y * m) * ((i - u) * v)) by (nonlinear_arith);
    assert((y * (i - v)) * (m * u) == (y * m) * ((i - v) * u)) by (nonlinear_arith);
    assert(0 < m * u && 0 < m * v && 0 <= y * (i - u) && 0 <= y * (i - v)) by (nonlinear_arith)
        requires
            0 <= y,
            0 < m,
            0 < v <= u <= i,
    ;
    lemma_floor_div_ordered(y * (i - u), m * u, y * (i - v), m * v);
}

} // verus!
