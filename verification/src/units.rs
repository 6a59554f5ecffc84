//! Fixed-point scalars and three-component vectors.

use vstd::prelude::*;

verus! {

/// One whole, for factors, trigonometric values and orbit distances.
pub const UNIT: i64 = 1_000_000;

/// One whole world-coordinate unit: the square of [`UNIT`].
pub const WORLD_UNIT: i64 = 1_000_000_000_000;

/// Largest magnitude of a world coordinate that the library works with:
/// a million whole units.
pub const WORLD_LIMIT: i64 = 1_000_000_000_000_000_000;

/// `v` brought into `[lo, hi]`.
pub open spec fn clamp(v: int, lo: int, hi: int) -> int {
    if v < lo {
        lo
    } else if v > hi {
        hi
    } else {
        v
    }
}

/// The quotient of `v` by `d`, rounded towards zero.
pub open spec fn trunc_div(v: int, d: int) -> int {
    if v >= 0 {
        v / d
    } else {
        -((-v) / d)
    }
}

/// A vector of mathematical integers: the model of a [`Vec3`].
pub struct V3 {
    pub x: int,
    pub y: int,
    pub z: int,
}

impl V3 {
    pub open spec fn plus(self, o: V3) -> V3 {
        V3 { x: self.x + o.x, y: self.y + o.y, z: self.z + o.z }
    }

    pub open spec fn minus(self, o: V3) -> V3 {
        V3 { x: self.x - o.x, y: self.y - o.y, z: self.z - o.z }
    }

    pub open spec fn times(self, k: int) -> V3 {
        V3 { x: self.x * k, y: self.y * k, z: self.z * k }
    }

    /// Every component lies within `limit` of zero.
    pub open spec fn within(self, limit: int) -> bool {
        &&& -limit <= self.x <= limit
        &&& -limit <= self.y <= limit
        &&& -limit <= self.z <= limit
    }

    /// The vector as machine integers; meant for components that fit.
    pub open spec fn to_vec3(self) -> Vec3 {
        Vec3 { x: self.x as i64, y: self.y as i64, z: self.z as i64 }
    }

    /// Every component brought into `[-limit, limit]`.
    pub open spec fn clamped(self, limit: int) -> V3 {
        V3 {
            x: clamp(self.x, -limit, limit),
            y: clamp(self.y, -limit, limit),
            z: clamp(self.z, -limit, limit),
        }
    }
}

/// A point or displacement in fixed-point coordinates.
#[derive(Clone, Copy, Debug, PartialEq, Eq, Structural)]
pub struct Vec3 {
    pub x: i64,
    pub y: i64,
    pub z: i64,
}

impl View for Vec3 {
    type V = V3;

    open spec fn view(&self) -> V3 {
        V3 { x: self.x as int, y: self.y as int, z: self.z as int }
    }
}

impl Vec3 {
    pub fn new(x: i64, y: i64, z: i64) -> (v: Vec3)
        ensures
            v == (Vec3 { x, y, z }),
    {
        Vec3 { x, y, z }
    }

    pub fn origin() -> (v: Vec3)
        ensures
            v == (Vec3 { x: 0, y: 0, z: 0 }),
    {
        Vec3 { x: 0, y: 0, z: 0 }
    }

    /// Whether every coordinate lies within [`WORLD_LIMIT`] of zero.
    pub fn in_world(&self) -> (b: bool)
        ensures
            b == self@.within(WORLD_LIMIT as int),
    {
        -WORLD_LIMIT <= self.x && self.x <= WORLD_LIMIT && -WORLD_LIMIT <= self.y && self.y
            <= WORLD_LIMIT && -WORLD_LIMIT <= self.z && self.z <= WORLD_LIMIT
    }
}

/// Brings `v` into `[lo, hi]`.
pub fn clamp_to(v: i128, lo: i64, hi: i64) -> (r: i64)
    requires
        lo <= hi,
    ensures
        r == clamp(v as int, lo as int, hi as int),
{
    if v < lo as i128 {
        lo
    } else if v > hi as i128 {
        hi
    } else {
        v as i64
    }
}

/// Divides `v` by `d`, rounding towards zero.
pub fn div_toward_zero(v: i64, d: i64) -> (q: i64)
    requires
        d > 0,
    ensures
        q == trunc_div(v as int, d as int),
{
    if v >= 0 {
        ((v as u64) / (d as u64)) as i64
    } else {
        let m: u64 = (-(v as i128)) as u64;
        let q: u64 = m / (d as u64);
        (-(q as i128)) as i64
    }
}

} // verus!
