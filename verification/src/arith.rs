//! Small integer helpers shared by the dispatch plans.
use vstd::prelude::*;

verus! {

/// `a / b` rounded up.
pub open spec fn ceil_div(a: int, b: int) -> int {
    (a + b - 1) / b
}

/// Rounding up: for a non-negative `a` and positive `b`, `ceil_div(a, b)`
/// is the least count of `b`-sized groups that covers `a`.
pub proof fn lemma_ceil_div_least_cover(a: int, b: int)
    requires
        a >= 0,
        b > 0,
    ensures
        ceil_div(a, b) >= 0,
        ceil_div(a, b) * b >= a,
        (ceil_div(a, b) - 1) * b < a,
{
    let q = ceil_div(a, b);
    let rem = (a + b - 1) % b;
    assert(a + b - 1 == q * b + rem && 0 <= rem < b) by (nonlinear_arith)
        requires q == (a + b - 1) / b, rem == (a + b - 1) % b, b > 0;
    assert(q * b >= a) by (nonlinear_arith)
        requires a + b - 1 == q * b + rem, rem < b;
    assert((q - 1) * b < a) by (nonlinear_arith)
        requires a + b - 1 == q * b + rem, rem >= 0;
    assert(q >= 0) by (nonlinear_arith)
        requires q == (a + b - 1) / b, a >= 0, b > 0;
}

/// `a / b` rounded up, for `u32`.
pub fn div_ceil_u32(a: u32, b: u32) -> (r: u32)
    requires
        b > 0,
    ensures
        r == ceil_div(a as int, b as int),
        r as int * b as int >= a,
        a > 0 ==> r > 0,
        a == 0 ==> r == 0,
{
    let q = a / b;
    proof {
        lemma_ceil_div_u(a as int, b as int, q as int);
    }
    if a % b == 0 { q } else { q + 1 }
}

/// `a / b` rounded up, for `u64`.
pub fn div_ceil_u64(a: u64, b: u64) -> (r: u64)
    requires
        b > 0,
    ensures
        r == ceil_div(a as int, b as int),
        r as int * b as int >= a,
        a > 0 ==> r > 0,
        a == 0 ==> r == 0,
        r <= a,
{
    let q = a / b;
    proof {
        lemma_ceil_div_u(a as int, b as int, q as int);
    }
    if a % b == 0 { q } else { q + 1 }
}

proof fn lemma_ceil_div_u(a: int, b: int, q: int)
    requires
        a >= 0,
        b > 0,
        q == a / b,
    ensures
        (if a % b == 0 { q } else { q + 1 }) == ceil_div(a, b),
        (if a % b == 0 { q } else { q + 1 }) * b >= a,
        a > 0 ==> (if a % b == 0 { q } else { q + 1 }) > 0,
        a == 0 ==> (if a % b == 0 { q } else { q + 1 }) == 0,
        (if a % b == 0 { q } else { q + 1 }) <= a,
{
    assert(a == q * b + a % b) by (nonlinear_arith)
        requires
            q == a / b,
            b > 0,
    ;
    assert(0 <= a % b < b) by (nonlinear_arith)
        requires
            b > 0,
    ;
    let c = (a + b - 1) / b;
    if a % b == 0 {
        assert(a + b - 1 == q * b + (b - 1));
        assert(c == q) by (nonlinear_arith)
            requires
                a + b - 1 == q * b + (b - 1),
                b > 0,
                c == (a + b - 1) / b,
        ;
    } else {
        assert(a + b - 1 == (q + 1) * b + (a % b - 1)) by (nonlinear_arith)
            requires
                a == q * b + a % b,
        ;
        assert(c == q + 1) by (nonlinear_arith)
            requires
                a + b - 1 == (q + 1) * b + (a % b - 1),
                0 <= a % b - 1 < b,
                b > 0,
                c == (a + b - 1) / b,
        ;
    }
    assert(q >= 0) by (nonlinear_arith)
        requires
            a >= 0,
            b > 0,
            q == a / b,
    ;
    if a > 0 && a % b == 0 {
        assert(q > 0) by (nonlinear_arith)
            requires
                a == q * b + a % b,
                a % b == 0,
                a > 0,
                b > 0,
                q >= 0,
        ;
    }
    if a % b != 0 {
        assert(q + 1 <= a) by (nonlinear_arith)
            requires
                a == q * b + a % b,
                a % b >= 1,
                b >= 1,
                q >= 0,
        ;
    } else {
        assert(q <= a) by (nonlinear_arith)
            requires
                a == q * b,
                b >= 1,
                q >= 0,
        ;
    }
}

} // verus!
