//! Plane geometry over integer coordinates.
//!
//! World positions are kept in milli-units (one thousandth of a world unit),
//! so that distances and the decisions made from them are exact integer
//! arithmetic. Coordinates are bounded so that squared distances fit in 64
//! bits.

use vstd::prelude::*;

verus! {

/// Milli-units per world unit.
pub const MILLI: i64 = 1000;

/// Bound on either coordinate of a position, in milli-units (a million
/// world units from the origin, far beyond anything the game reaches).
pub const COORD_LIMIT: i64 = 1_000_000_000;

/// A position or direction in the gameplay plane, in milli-units.
#[derive(Clone, Copy, PartialEq, Eq, Structural, Debug)]
pub struct Vec2i {
    pub x: i64,
    pub y: i64,
}

impl Vec2i {
    /// Both coordinates within the world bound.
    pub open spec fn in_bounds(self) -> bool {
        -COORD_LIMIT <= self.x <= COORD_LIMIT && -COORD_LIMIT <= self.y <= COORD_LIMIT
    }

}

/// Squared distance between two positions, in squared milli-units.
pub open spec fn dist_sq(a: Vec2i, b: Vec2i) -> int {
    (a.x - b.x) * (a.x - b.x) + (a.y - b.y) * (a.y - b.y)
}

/// Squared distance, computed exactly.
pub fn dist_sq_u64(a: Vec2i, b: Vec2i) -> (r: u64)
    requires
        a.in_bounds(),
        b.in_bounds(),
    ensures
        r == dist_sq(a, b),
        r <= 8_000_000_000_000_000_000,
{
    let dx: i64 = a.x - b.x;
    let dy: i64 = a.y - b.y;
    proof {
        assert(dx * dx <= 4_000_000_000_000_000_000) by (nonlinear_arith)
            requires -2_000_000_000 <= dx <= 2_000_000_000;
        assert(dy * dy <= 4_000_000_000_000_000_000) by (nonlinear_arith)
            requires -2_000_000_000 <= dy <= 2_000_000_000;
        assert(dx * dx >= 0) by (nonlinear_arith);
        assert(dy * dy >= 0) by (nonlinear_arith);
    }
    let x2: u64 = (dx * dx) as u64;
    let y2: u64 = (dy * dy) as u64;
    x2 + y2
}

/// Integer square root: the largest `r` with `r * r <= n`.
pub fn isqrt(n: u64) -> (r: u64)
    ensures
        r * r <= n < (r + 1) * (r + 1),
{
    let mut lo: u64 = 0;
    let mut hi: u64 = 4_294_967_296;
    proof {
        assert(4_294_967_296u64 * 4_294_967_296u64 > u64::MAX) by (nonlinear_arith);
    }
    while hi - lo > 1
        invariant
            lo < hi <= 4_294_967_296,
            lo * lo <= n,
            hi * hi > n,
        decreases hi - lo,
    {
        let mid: u64 = lo + (hi - lo) / 2;
        proof {
            assert(mid * mid < u64::MAX) by (nonlinear_arith)
                requires mid < 4_294_967_296;
        }
        if mid * mid <= n {
            lo = mid;
        } else {
            hi = mid;
        }
    }
    lo
}

/// Magnitude of an integer.
pub open spec fn abs_i(x: int) -> int {
    if x >= 0 {
        x
    } else {
        -x
    }
}

/// Clamp a coordinate into the world bound.
pub open spec fn spec_clamp_coord(x: int) -> int {
    if x > COORD_LIMIT {
        COORD_LIMIT as int
    } else if x < -COORD_LIMIT {
        -COORD_LIMIT as int
    } else {
        x
    }
}

pub fn clamp_coord(x: i64) -> (r: i64)
    ensures
        r == spec_clamp_coord(x as int),
{
    if x > COORD_LIMIT {
        COORD_LIMIT
    } else if x < -COORD_LIMIT {
        -COORD_LIMIT
    } else {
        x
    }
}

/// One coordinate of a straight step toward a target: move by
/// `abs(to - from) * step / d`, truncated, but never past the target.
pub open spec fn spec_step_toward(from: int, to: int, step: int, d: int) -> int {
    let diff = to - from;
    let mag = if abs_i(diff) * step / d <= abs_i(diff) {
        abs_i(diff) * step / d
    } else {
        abs_i(diff)
    };
    if diff >= 0 {
        from + mag
    } else {
        from - mag
    }
}

/// Straight movement from `pos` toward `target` covering `step_milli`
/// milli-units of distance, component-wise truncated, clamped so it never
/// overshoots the target. `d` must be the integer square root of the
/// squared distance, which must not be zero.
pub fn move_toward(pos: Vec2i, target: Vec2i, step_milli: u64) -> (p: Vec2i)
    requires
        pos.in_bounds(),
        target.in_bounds(),
        dist_sq(pos, target) > 0,
        step_milli <= 1_000_000_000,
    ensures
        p.in_bounds(),
        ({
            let d = isqrt_spec(dist_sq(pos, target) as nat) as int;
            p.x == spec_step_toward(pos.x as int, target.x as int, step_milli as int, d) && p.y
                == spec_step_toward(pos.y as int, target.y as int, step_milli as int, d)
        }),
        abs_i(target.x - p.x) <= abs_i(target.x - pos.x),
        abs_i(target.y - p.y) <= abs_i(target.y - pos.y),
{
    let dsq = dist_sq_u64(pos, target);
    let d = isqrt(dsq);
    proof {
        lemma_isqrt_unique(dsq as nat, d as nat);
        assert(d >= 1) by {
            if d == 0 {
                assert((0 + 1) * (0 + 1) == 1);
            }
        }
    }
    let px = step_coord(pos.x, target.x, step_milli, d);
    let py = step_coord(pos.y, target.y, step_milli, d);
    Vec2i { x: px, y: py }
}

/// Exec counterpart of [`spec_step_toward`] for one coordinate.
fn step_coord(from: i64, to: i64, step: u64, d: u64) -> (r: i64)
    requires
        -COORD_LIMIT <= from <= COORD_LIMIT,
        -COORD_LIMIT <= to <= COORD_LIMIT,
        d >= 1,
        step <= 1_000_000_000,
    ensures
        r == spec_step_toward(from as int, to as int, step as int, d as int),
        -COORD_LIMIT <= r <= COORD_LIMIT,
        abs_i(to - r) <= abs_i(to - from),
{
    let diff_abs: u64 = if to >= from {
        (to - from) as u64
    } else {
        (from - to) as u64
    };
    proof {
        assert(diff_abs * step <= 2_000_000_000u64 * 1_000_000_000u64) by (nonlinear_arith)
            requires
                diff_abs <= 2_000_000_000,
                step <= 1_000_000_000,
        ;
    }
    let scaled: u64 = diff_abs * step / d;
    let mag: u64 = if scaled <= diff_abs {
        scaled
    } else {
        diff_abs
    };
    if to >= from {
        from + (mag as i64)
    } else {
        from - (mag as i64)
    }
}

/// What [`isqrt`] returns, as a spec-level function: the largest natural
/// whose square is at most `n`.
pub open spec fn isqrt_spec(n: nat) -> nat
    decreases n,
{
    if n == 0 {
        0
    } else {
        let p = isqrt_spec((n - 1) as nat);
        if (p + 1) * (p + 1) <= n {
            p + 1
        } else {
            p
        }
    }
}

/// `isqrt_spec` is the integer square root.
pub proof fn lemma_isqrt_spec(n: nat)
    ensures
        isqrt_spec(n) * isqrt_spec(n) <= n < (isqrt_spec(n) + 1) * (isqrt_spec(n) + 1),
    decreases n,
{
    if n == 0 {
        assert(isqrt_spec(0) == 0);
        assert((0 + 1) * (0 + 1) == 1) by (nonlinear_arith);
    } else {
        lemma_isqrt_spec((n - 1) as nat);
        let p = isqrt_spec((n - 1) as nat);
        assert(p * p <= n - 1 < (p + 1) * (p + 1));
        if (p + 1) * (p + 1) <= n {
            assert(isqrt_spec(n) == p + 1);
            assert(n <= (p + 1) * (p + 1));
            assert((p + 1 + 1) * (p + 1 + 1) > (p + 1) * (p + 1)) by (nonlinear_arith);
        } else {
            assert(isqrt_spec(n) == p);
        }
    }
}

/// The integer square root is unique, so any witness pins `isqrt_spec`.
pub proof fn lemma_isqrt_unique(n: nat, r: nat)
    requires
        r * r <= n < (r + 1) * (r + 1),
    ensures
        isqrt_spec(n) == r,
{
    lemma_isqrt_spec(n);
    let w = isqrt_spec(n);
    if w < r {
        assert((w + 1) * (w + 1) <= r * r) by (nonlinear_arith)
            requires
                w + 1 <= r,
        ;
    }
    if w > r {
        assert((r + 1) * (r + 1) <= w * w) by (nonlinear_arith)
            requires
                r + 1 <= w,
        ;
    }
}

/// The z-component of the cross product of two plane directions,
/// which tells the shorter way to rotate from `current` to `target`.
pub open spec fn cross_z(current: Vec2i, target: Vec2i) -> int {
    current.x * target.y - current.y * target.x
}

/// Which way to rotate `current` toward `target`: `1` counter-clockwise when
/// the cross product's z-component is positive, else `-1` (the convention the
/// aiming turret uses).
pub fn rotation_sign(current: Vec2i, target: Vec2i) -> (s: i64)
    requires
        -2_000_000_000 <= current.x <= 2_000_000_000,
        -2_000_000_000 <= current.y <= 2_000_000_000,
        -2_000_000_000 <= target.x <= 2_000_000_000,
        -2_000_000_000 <= target.y <= 2_000_000_000,
    ensures
        s == 1 || s == -1,
        (s == 1) == (cross_z(current, target) > 0),
{
    proof {
        assert(current.x * target.y <= 4_000_000_000_000_000_000
            && current.x * target.y >= -4_000_000_000_000_000_000) by (nonlinear_arith)
            requires
                -2_000_000_000 <= current.x <= 2_000_000_000,
                -2_000_000_000 <= target.y <= 2_000_000_000;
        assert(current.y * target.x <= 4_000_000_000_000_000_000
            && current.y * target.x >= -4_000_000_000_000_000_000) by (nonlinear_arith)
            requires
                -2_000_000_000 <= current.y <= 2_000_000_000,
                -2_000_000_000 <= target.x <= 2_000_000_000;
    }
    let a: i64 = current.x * target.y;
    let b: i64 = current.y * target.x;
    if a > b {
        1
    } else {
        -1
    }
}

} // verus!
