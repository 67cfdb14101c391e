//! Random placement of spawned entities around the origin.

use crate::geom::{dist_sq, isqrt, Vec2i, MILLI};
use crate::rng::random_below;
use vstd::prelude::*;

verus! {

/// Largest ring radius handed to [`random_ring_position`], in world units;
/// keeps every spawned position within the coordinate bound.
pub const MAX_RING_DISTANCE: u64 = 900_000;

/// Pick a random point on the circle of radius `r` milli-units around the
/// origin (up to integer rounding): a random horizontal offset within the
/// radius, a vertical offset completing it to the circle, each side equally
/// likely. The result lies within one milli-unit ring of the requested
/// radius.
pub fn random_circle_point(r: u64) -> (p: Vec2i)
    requires
        r <= 900_000_000,
    ensures
        p.in_bounds(),
        r * r - 2 * r <= dist_sq(p, Vec2i { x: 0, y: 0 }) <= r * r,
{
    let draw: u64 = random_below(2 * r + 1);
    let x: i64 = if draw >= r {
        (draw - r) as i64
    } else {
        -((r - draw) as i64)
    };
    let xa: u64 = if draw >= r {
        draw - r
    } else {
        r - draw
    };
    proof {
        assert(r * r <= 810_000_000_000_000_000) by (nonlinear_arith)
            requires
                r <= 900_000_000,
        ;
        assert(xa * xa <= r * r) by (nonlinear_arith)
            requires
                xa <= r,
        ;
        assert(xa * xa == x * x) by (nonlinear_arith)
            requires
                xa as int == x as int || xa as int == -(x as int),
        ;
    }
    let rest: u64 = r * r - xa * xa;
    let ya: u64 = isqrt(rest);
    proof {
        assert(ya <= r) by (nonlinear_arith)
            requires
                ya * ya <= r * r,
        ;
        assert(r * r - xa * xa < (ya + 1) * (ya + 1));
        assert((ya + 1) * (ya + 1) == ya * ya + 2 * ya + 1) by (nonlinear_arith);
    }
    let y: i64 = if random_below(2) == 0 {
        ya as i64
    } else {
        -(ya as i64)
    };
    let p = Vec2i { x, y };
    proof {
        assert(y * y == ya * ya) by (nonlinear_arith)
            requires
                y as int == ya as int || y as int == -(ya as int),
        ;
        assert(dist_sq(p, Vec2i { x: 0, y: 0 }) == x * x + y * y);
    }
    p
}

/// Pick a random position on the circle of the given radius (in world
/// units) around the origin.
pub fn random_ring_position(distance_units: u64) -> (p: Vec2i)
    requires
        distance_units <= MAX_RING_DISTANCE,
    ensures
        p.in_bounds(),
        ({
            let r = distance_units * MILLI;
            r * r - 2 * r <= dist_sq(p, Vec2i { x: 0, y: 0 }) <= r * r
        }),
{
    random_circle_point(distance_units * (MILLI as u64))
}

/// Pick a random offset within Euclidean distance `max_milli` of the
/// origin: a random radius up to the bound, then a point on that circle.
pub fn random_disc_offset(max_milli: u64) -> (p: Vec2i)
    requires
        max_milli <= 900_000_000,
    ensures
        p.in_bounds(),
        dist_sq(p, Vec2i { x: 0, y: 0 }) <= max_milli * max_milli,
{
    let d: u64 = random_below(max_milli + 1);
    let p = random_circle_point(d);
    proof {
        assert(d * d <= max_milli * max_milli) by (nonlinear_arith)
            requires
                d <= max_milli,
        ;
    }
    p
}

} // verus!
