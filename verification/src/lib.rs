//! A 2D axis-aligned physics core on integer (fixed-point) coordinates:
//! all-pairs collision detection between rectangles, penetration-based
//! resolution, ground-contact tracking, and force/velocity integration.
//!
//! Positions, extents, velocities and accelerations are plain `i64` values
//! in a fixed-point world unit chosen by the host; elapsed time per tick is
//! an `i64` count of time units. The host scheduler (an ECS or a plain
//! loop) iterates entities, converts its own component types to the types
//! here, and calls one function per system per tick.

use vstd::prelude::*;

pub mod collision;
pub mod gravity;
pub mod motion;

verus! {

/// A 2D vector of fixed-point coordinates (velocity, acceleration).
#[derive(Clone, Copy, Debug, PartialEq, Eq, Structural)]
pub struct Vec2i {
    pub x: i64,
    pub y: i64,
}

/// A 3D translation of fixed-point coordinates. Only `x` and `y` take part
/// in the physics; `z` is carried through untouched.
#[derive(Clone, Copy, Debug, PartialEq, Eq, Structural)]
pub struct Vec3i {
    pub x: i64,
    pub y: i64,
    pub z: i64,
}

impl Vec2i {
    pub fn new(x: i64, y: i64) -> (r: Vec2i)
        ensures
            r.x == x,
            r.y == y,
    {
        Vec2i { x, y }
    }
}

impl Vec3i {
    pub fn new(x: i64, y: i64, z: i64) -> (r: Vec3i)
        ensures
            r.x == x,
            r.y == y,
            r.z == z,
    {
        Vec3i { x, y, z }
    }
}

/// Largest magnitude a position coordinate may have.
pub const POS_LIMIT: i64 = 1_000_000_000_000_000;

/// Largest extent (width or height) a collider may have.
pub const EXTENT_LIMIT: i64 = 1_000_000_000_000_000;

/// Largest magnitude a velocity or acceleration component may have on
/// entry to the integrators.
pub const VEL_LIMIT: i64 = 1_000_000_000_000;

/// Largest elapsed time per tick, in time units.
pub const DT_LIMIT: i64 = 1_000_000;

/// Largest value a tunable of `PhysicsConfig` may have.
pub const CFG_LIMIT: i64 = 1_000_000;

/// A position coordinate within the bounds the arithmetic is proved for.
pub open spec fn in_pos(v: int) -> bool {
    -POS_LIMIT <= v <= POS_LIMIT
}

/// An extent within the bounds the arithmetic is proved for.
pub open spec fn in_extent(v: int) -> bool {
    0 <= v <= EXTENT_LIMIT
}

/// The absolute value, as the overlap tests use it.
pub open spec fn abs(v: int) -> int {
    if v < 0 { -v } else { v }
}

/// `v` clamped into `[lo, hi]`.
pub open spec fn clamp_s(v: int, lo: int, hi: int) -> int {
    if v < lo {
        lo
    } else if v > hi {
        hi
    } else {
        v
    }
}

/// Componentwise clamp on `i64`.
pub fn clamp_i64(v: i64, lo: i64, hi: i64) -> (r: i64)
    requires
        lo <= hi,
    ensures
        r == clamp_s(v as int, lo as int, hi as int),
{
    if v < lo {
        lo
    } else if v > hi {
        hi
    } else {
        v
    }
}

/// A position coordinate clamped into the world bounds: a displacement
/// that would leave the proved coordinate range saturates at the world
/// edge instead.
pub open spec fn clamp_pos(v: int) -> int {
    clamp_s(v, -POS_LIMIT as int, POS_LIMIT as int)
}

/// The absolute value of an `i64` whose magnitude fits back in `i64`.
pub fn abs_i64(v: i64) -> (r: i64)
    requires
        v != i64::MIN,
    ensures
        r == abs(v as int),
{
    if v < 0 { -v } else { v }
}

} // verus!
