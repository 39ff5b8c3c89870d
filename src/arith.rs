use vstd::prelude::*;

verus! {

/// `r` is the integer square root of `n`: the largest natural number whose
/// square does not exceed `n`.
pub open spec fn is_root(n: int, r: int) -> bool {
    0 <= r && r * r <= n && n < (r + 1) * (r + 1)
}

/// The integer square root of `n` (meaningful for `n >= 0`).
pub open spec fn floor_sqrt(n: int) -> int {
    choose|r: int| is_root(n, r)
}

/// The integer square root is unique.
pub proof fn lemma_root_unique(n: int, r1: int, r2: int)
    requires
        is_root(n, r1),
        is_root(n, r2),
    ensures
        r1 == r2,
{
    if r1 < r2 {
        assert((r1 + 1) * (r1 + 1) <= r2 * r2) by (nonlinear_arith)
            requires
                0 <= r1 + 1 <= r2,
        ;
    } else if r2 < r1 {
        assert((r2 + 1) * (r2 + 1) <= r1 * r1) by (nonlinear_arith)
            requires
                0 <= r2 + 1 <= r1,
        ;
    }
}

/// Every natural number has an integer square root.
pub proof fn lemma_root_exists(n: int)
    requires
        0 <= n,
    ensures
        exists|r: int| #[trigger] is_root(n, r),
    decreases n,
{
    if n == 0 {
        assert(is_root(0, 0));
    } else {
        lemma_root_exists(n - 1);
        let r = choose|r: int| #[trigger] is_root(n - 1, r);
        if (r + 1) * (r + 1) <= n {
            assert((r + 1) * (r + 1) <= n < (r + 2) * (r + 2)) by (nonlinear_arith)
                requires
                    0 <= r,
                    n - 1 < (r + 1) * (r + 1),
                    (r + 1) * (r + 1) <= n,
            ;
            assert(is_root(n, r + 1));
        } else {
            assert(is_root(n, r));
        }
    }
}

/// `floor_sqrt` of a natural number is its integer square root.
pub proof fn lemma_floor_sqrt(n: int)
    requires
        0 <= n,
    ensures
        is_root(n, floor_sqrt(n)),
{
    lemma_root_exists(n);
}

/// Any witness of `is_root` is the integer square root.
pub proof fn lemma_floor_sqrt_is(n: int, r: int)
    requires
        is_root(n, r),
    ensures
        floor_sqrt(n) == r,
{
    lemma_root_unique(n, floor_sqrt(n), r);
}

/// Integer square root by bisection.
pub fn isqrt(n: u128) -> (r: u64)
    ensures
        is_root(n as int, r as int),
        r as int == floor_sqrt(n as int),
{
    let mut lo: u128 = 0;
    let mut hi: u128 = 0x1_0000_0000_0000_0000;
    assert(n < hi * hi);
    while hi - lo > 1
        invariant
            lo < hi <= 0x1_0000_0000_0000_0000u128,
            lo * lo <= n,
            n < hi * hi,
        decreases hi - lo,
    {
        let mid: u128 = lo + (hi - lo) / 2;
        assert(mid * mid < 0x1_0000_0000_0000_0000_0000_0000_0000_0000int) by (nonlinear_arith)
            requires
                mid < 0x1_0000_0000_0000_0000int,
        ;
        if mid * mid <= n {
            lo = mid;
        } else {
            hi = mid;
        }
    }
    proof {
        assert(is_root(n as int, lo as int));
        lemma_floor_sqrt_is(n as int, lo as int);
    }
    lo as u64
}

/// A product of two bounded factors is bounded by the product of the bounds.
pub proof fn lemma_mul_within(a: int, b: int, la: int, lb: int)
    requires
        -la <= a <= la,
        0 <= b <= lb,
    ensures
        -(la * lb) <= a * b <= la * lb,
{
    assert(-(la * lb) <= a * b <= la * lb) by (nonlinear_arith)
        requires
            -la <= a <= la,
            0 <= b <= lb,
    ;
}

/// The square of a bounded value is bounded by the square of the bound.
pub proof fn lemma_square_within(a: int, la: int)
    requires
        -la <= a <= la,
    ensures
        0 <= a * a <= la * la,
{
    assert(0 <= a * a <= la * la) by (nonlinear_arith)
        requires
            -la <= a <= la,
    ;
}

/// A root is no larger than any `b >= 0` whose square reaches the radicand.
pub proof fn lemma_root_at_most(n: int, r: int, b: int)
    requires
        is_root(n, r),
        0 <= b,
        n <= b * b,
    ensures
        r <= b,
{
    if r > b {
        assert(b * b < r * r) by (nonlinear_arith)
            requires
                0 <= b < r,
        ;
    }
}

} // verus!
