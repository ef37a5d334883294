//! Integer sizing arithmetic shared by the dispatch and buffer planners.
use vstd::prelude::*;

verus! {

/// `ceil(n / d)` for a non-negative `n` and a positive `d`.
pub open spec fn ceil_div(n: int, d: int) -> int {
    (n + d - 1) / d
}

/// `ceil_div(n, d)` is the least `q` with `q * d >= n`.
pub proof fn lemma_ceil_div_is_least_cover(n: int, d: int)
    requires
        n >= 0,
        d > 0,
    ensures
        ceil_div(n, d) >= 0,
        ceil_div(n, d) * d >= n,
        ceil_div(n, d) == 0 || (ceil_div(n, d) - 1) * d < n,
{
    let q = ceil_div(n, d);
    let r = (n + d - 1) % d;
    assert(n + d - 1 == q * d + r && 0 <= r < d) by (nonlinear_arith)
        requires
            d > 0,
            q == (n + d - 1) / d,
            r == (n + d - 1) % d,
    ;
    assert(q >= 0) by (nonlinear_arith)
        requires
            d > 0,
            n >= 0,
            q == (n + d - 1) / d,
    ;
    assert(q * d >= n);
    assert((q - 1) * d == q * d - d) by (nonlinear_arith);
}

/// `ceil(n / d) <= n` for every divisor `d >= 1`.
pub proof fn lemma_ceil_div_le(n: int, d: int)
    requires
        n >= 0,
        d >= 1,
    ensures
        ceil_div(n, d) <= n,
{
    lemma_ceil_div_is_least_cover(n, d);
    let q = ceil_div(n, d);
    if q > n {
        assert((q - 1) * d >= n * d) by (nonlinear_arith)
            requires
                q - 1 >= n,
                d >= 1,
                n >= 0,
        ;
        assert(n * d >= n) by (nonlinear_arith)
            requires
                d >= 1,
                n >= 0,
        ;
    }
}

/// `r` is the least integer whose square reaches `n`.
pub open spec fn is_ceil_sqrt(n: int, r: int) -> bool {
    &&& r >= 0
    &&& r * r >= n
    &&& r == 0 || (r - 1) * (r - 1) < n
}

/// The least `r` with `r * r >= n`.
pub fn ceil_sqrt(n: u32) -> (r: u32)
    ensures
        is_ceil_sqrt(n as int, r as int),
        r <= 65536,
{
    let mut lo: u64 = 0;
    let mut hi: u64 = 65536;
    assert(hi * hi >= n) by (nonlinear_arith)
        requires
            hi == 65536,
            n <= u32::MAX,
    ;
    while lo < hi
        invariant
            lo <= hi <= 65536,
            hi * hi >= n,
            lo == 0 || (lo - 1) * (lo - 1) < n,
        decreases hi - lo,
    {
        let mid: u64 = lo + (hi - lo) / 2;
        assert(mid * mid <= 65536 * 65536) by (nonlinear_arith)
            requires
                mid <= 65536,
        ;
        if mid * mid >= n as u64 {
            hi = mid;
        } else {
            lo = mid + 1;
        }
    }
    lo as u32
}

/// A near-square grid of workgroups, `gx` by `gy`, for `n` items: `gx` is the
/// ceiling of the square root of `n`, and `gy` the rows of `gx` needed for `n`.
pub open spec fn square_grid_spec(n: int, gx: int, gy: int) -> bool {
    &&& is_ceil_sqrt(n, gx)
    &&& gy == (if gx == 0 { 0 } else { ceil_div(n, gx) })
}

/// Splits `n` items into a near-square `gx` by `gy` grid of workgroups.
pub fn square_grid(n: u32) -> (grid: (u32, u32))
    ensures
        square_grid_spec(n as int, grid.0 as int, grid.1 as int),
        grid.0 * grid.1 >= n,
        grid.1 <= grid.0,
{
    let gx = ceil_sqrt(n);
    if gx == 0 {
        (0, 0)
    } else {
        proof {
            lemma_ceil_div_is_least_cover(n as int, gx as int);
            let gy = ceil_div(n as int, gx as int);
            if gy > gx {
                assert((gy - 1) * gx >= gx * gx) by (nonlinear_arith)
                    requires
                        gy - 1 >= gx,
                        gx >= 1,
                ;
            }
        }
        let gy = (n as u64 + gx as u64 - 1) / gx as u64;
        (gx, gy as u32)
    }
}

/// The grid covers all items, and has as many rows as needed and no more.
pub proof fn lemma_square_grid_covers(n: int, gx: int, gy: int)
    requires
        n >= 0,
        square_grid_spec(n, gx, gy),
    ensures
        gx * gy >= n,
        gy <= gx,
        gy == 0 || (gy - 1) * gx < n,
{
    if gx > 0 {
        lemma_ceil_div_is_least_cover(n, gx);
        if gy > gx {
            assert((gy - 1) * gx >= gx * gx) by (nonlinear_arith)
                requires
                    gy - 1 >= gx,
                    gx >= 1,
            ;
        }
    } else {
        assert(n <= 0);
    }
}

} // verus!
