//! Fixed-point quantities.
//!
//! Lengths and coordinates are whole thousandths of a world unit, spans of
//! time are whole nanoseconds, and a velocity is the product of the two
//! scales: thousandths of a unit per second, counted in billionths. With
//! these scales `acceleration * elapsed` is a velocity without any rounding.

use vstd::prelude::*;

verus! {

/// One world unit, in thousandths.
pub const UNIT: i64 = 1000;

/// One second, in nanoseconds.
pub const NANOS_PER_SECOND: u64 = 1_000_000_000;

/// A speed of one world unit per second: `UNIT * NANOS_PER_SECOND`.
pub const UNIT_PER_SECOND: i128 = 1_000_000_000_000;

/// A point or an extent in space, in thousandths of a unit.
#[derive(Clone, Copy, Debug, PartialEq, Eq, Structural)]
pub struct Vec3 {
    pub x: i64,
    pub y: i64,
    pub z: i64,
}

impl Vec3 {
    /// The vector with the given coordinates.
    pub fn new(x: i64, y: i64, z: i64) -> (v: Vec3)
        ensures
            v == (Vec3 { x, y, z }),
    {
        Vec3 { x, y, z }
    }

    /// Whether `self + other` can be held, coordinate by coordinate.
    pub open spec fn can_add(self, other: Vec3) -> bool {
        &&& i64::MIN <= self.x + other.x <= i64::MAX
        &&& i64::MIN <= self.y + other.y <= i64::MAX
        &&& i64::MIN <= self.z + other.z <= i64::MAX
    }

    /// The sum of two vectors, coordinate by coordinate.
    pub open spec fn spec_plus(self, other: Vec3) -> Vec3 {
        Vec3 {
            x: (self.x + other.x) as i64,
            y: (self.y + other.y) as i64,
            z: (self.z + other.z) as i64,
        }
    }

    /// Tests whether `self + other` can be held.
    pub fn fits_sum(self, other: Vec3) -> (ok: bool)
        ensures
            ok == self.can_add(other),
    {
        self.x.checked_add(other.x).is_some() && self.y.checked_add(other.y).is_some()
            && self.z.checked_add(other.z).is_some()
    }

    /// Adds two vectors.
    #[verifier::when_used_as_spec(spec_plus)]
    pub fn plus(self, other: Vec3) -> (sum: Vec3)
        requires
            self.can_add(other),
        ensures
            sum == self.spec_plus(other),
            sum.x == self.x + other.x,
            sum.y == self.y + other.y,
            sum.z == self.z + other.z,
    {
        Vec3 { x: self.x + other.x, y: self.y + other.y, z: self.z + other.z }
    }
}

/// A velocity. One world unit per second is `UNIT_PER_SECOND` on each axis.
#[derive(Clone, Copy, Debug, PartialEq, Eq, Structural)]
pub struct Velocity {
    pub x: i128,
    pub y: i128,
    pub z: i128,
}

impl Velocity {
    /// The velocity with the given components.
    pub fn new(x: i128, y: i128, z: i128) -> (v: Velocity)
        ensures
            v == (Velocity { x, y, z }),
    {
        Velocity { x, y, z }
    }

    /// A body at rest.
    pub open spec fn zero() -> Velocity {
        Velocity { x: 0, y: 0, z: 0 }
    }
}

/// Half of `v`, rounded toward zero.
pub open spec fn half(v: int) -> int {
    if v >= 0 {
        v / 2
    } else {
        -((-v) / 2)
    }
}

/// Halves a length, rounding toward zero.
pub fn halve(v: i64) -> (h: i64)
    ensures
        h == half(v as int),
{
    v / 2
}

} // verus!
