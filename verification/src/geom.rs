//! Fixed-point plane geometry.
//!
//! Positions and extents are integers in milli-pixels; speeds are
//! milli-pixels per second.  The bounds below keep every product that
//! the movement and collision formulas form inside `i64`.

use vstd::prelude::*;

verus! {

/// Largest magnitude a coordinate may take, in milli-pixels.
pub const MAX_COORD: i64 = 1_000_000_000;

/// Largest extent (radius or half width/height) of a collider shape.
pub const MAX_EXTENT: i64 = 1_000_000;

/// Largest speed, in milli-pixels per second.
pub const MAX_SPEED: i64 = 10_000_000;

/// Largest frame delta a tick accepts, in milliseconds.
pub const MAX_TICK_MS: u64 = 1_000_000;

/// A point or displacement in the plane, in milli-pixels.
#[derive(Clone, Copy, PartialEq, Eq, Structural, Debug)]
pub struct Vec2 {
    pub x: i64,
    pub y: i64,
}

impl Vec2 {
    /// Both coordinates lie within the world bound.
    pub open spec fn in_bounds(self) -> bool {
        -MAX_COORD <= self.x <= MAX_COORD && -MAX_COORD <= self.y <= MAX_COORD
    }

    pub fn new(x: i64, y: i64) -> (v: Vec2)
        ensures
            v.x == x && v.y == y,
    {
        Vec2 { x, y }
    }
}

/// `v` held into `[lo, hi]`.
pub open spec fn clamp_spec(v: int, lo: int, hi: int) -> int {
    if v < lo {
        lo
    } else if v > hi {
        hi
    } else {
        v
    }
}

/// Clamps a coordinate into `[lo, hi]`.
pub fn clamp_i64(v: i64, lo: i64, hi: i64) -> (r: i64)
    requires
        lo <= hi,
    ensures
        r == clamp_spec(v as int, lo as int, hi as int),
{
    if v < lo {
        lo
    } else if v > hi {
        hi
    } else {
        v
    }
}

/// Magnitude of an integer.
pub open spec fn abs_spec(v: int) -> int {
    if v < 0 {
        -v
    } else {
        v
    }
}

/// The integer square root: the largest `r` with `r * r <= n`.
pub open spec fn is_isqrt(n: int, r: int) -> bool {
    0 <= r && r * r <= n < (r + 1) * (r + 1)
}

/// The integer square root as a spec value.
pub open spec fn isqrt_of(n: int) -> int {
    choose|r: int| is_isqrt(n, r)
}

/// Every non-negative integer has an integer square root, and
/// `isqrt_of` denotes it.
pub proof fn lemma_isqrt_exists(n: int)
    requires
        n >= 0,
    ensures
        is_isqrt(n, isqrt_of(n)),
    decreases n,
{
    if n == 0 {
        assert(is_isqrt(0, 0));
    } else {
        lemma_isqrt_exists(n - 1);
        let r = isqrt_of(n - 1);
        if (r + 1) * (r + 1) <= n {
            assert(is_isqrt(n, r + 1)) by (nonlinear_arith)
                requires is_isqrt(n - 1, r), (r + 1) * (r + 1) <= n;
        } else {
            assert(is_isqrt(n, r));
        }
    }
}

/// The integer square root is unique.
pub proof fn lemma_isqrt_unique(n: int, r1: int, r2: int)
    requires
        is_isqrt(n, r1),
        is_isqrt(n, r2),
    ensures
        r1 == r2,
{
    assert(r1 == r2) by (nonlinear_arith)
        requires is_isqrt(n, r1), is_isqrt(n, r2);
}

/// Computes the integer square root by bisection.
pub fn isqrt64(n: u64) -> (r: u64)
    requires
        n < 9_000_000_000_000_000_000,
    ensures
        is_isqrt(n as int, r as int),
{
    let mut lo: u64 = 0;
    let mut hi: u64 = 3_000_000_000;
    proof {
        assert((3_000_000_000 as int) * (3_000_000_000 as int) > n as int)
            by (nonlinear_arith)
            requires n < 9_000_000_000_000_000_000;
    }
    while lo + 1 < hi
        invariant
            lo < hi <= 3_000_000_000,
            (lo as int) * (lo as int) <= n as int,
            (hi as int) * (hi as int) > n as int,
        decreases hi - lo,
    {
        let mid: u64 = lo + (hi - lo) / 2;
        proof {
            assert((mid as int) * (mid as int) <= (3_000_000_000 as int) * (3_000_000_000 as int))
                by (nonlinear_arith)
                requires 0 <= mid <= 3_000_000_000;
        }
        if mid * mid <= n {
            lo = mid;
        } else {
            hi = mid;
        }
    }
    lo
}

} // verus!
