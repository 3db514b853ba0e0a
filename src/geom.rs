//! Fixed-point geometry shared by the vehicle controller and the host.
//!
//! Lengths are millimetres, velocities millimetres per second, rotations are
//! quaternions whose components are scaled by `ROTATION_UNIT`.
use vstd::prelude::*;

verus! {

/// Scale of the components of a unit direction vector.
pub const DIRECTION_UNIT: i64 = 1_000_000;

/// Scale of a quaternion component.
pub const ROTATION_UNIT: i64 = 1_000_000_000;

/// A point or a vector with integer components.
#[derive(Clone, Copy, Debug, PartialEq, Eq, Structural)]
pub struct Vec3i {
    pub x: i64,
    pub y: i64,
    pub z: i64,
}

/// An orientation as a fixed-point quaternion; the controller only stores and restores it.
#[derive(Clone, Copy, Debug, PartialEq, Eq, Structural)]
pub struct Rotation {
    pub x: i64,
    pub y: i64,
    pub z: i64,
    pub w: i64,
}

/// Rust's integer division, which rounds toward zero.
pub open spec fn trunc_div(a: int, d: int) -> int {
    if a >= 0 { a / d } else { -((-a) / d) }
}

impl Vec3i {
    /// The zero vector.
    pub open spec fn zero_spec() -> Vec3i {
        Vec3i { x: 0, y: 0, z: 0 }
    }

    /// The zero vector.
    pub fn zero() -> (r: Vec3i)
        ensures
            r == Vec3i::zero_spec(),
    {
        Vec3i { x: 0, y: 0, z: 0 }
    }

    /// The vector with components `x`, `y` and `z`.
    pub fn new(x: i64, y: i64, z: i64) -> (r: Vec3i)
        ensures
            r.x == x,
            r.y == y,
            r.z == z,
    {
        Vec3i { x, y, z }
    }

    /// Squared Euclidean length.
    pub open spec fn norm_sq(self) -> int {
        self.x * self.x + self.y * self.y + self.z * self.z
    }

    /// Scalar product.
    pub open spec fn dot(self, o: Vec3i) -> int {
        self.x * o.x + self.y * o.y + self.z * o.z
    }

    /// Every component lies within `[-DIRECTION_UNIT, DIRECTION_UNIT]`, as a unit
    /// direction scaled by `DIRECTION_UNIT` does.
    pub open spec fn is_direction(self) -> bool {
        -DIRECTION_UNIT <= self.x <= DIRECTION_UNIT
        && -DIRECTION_UNIT <= self.y <= DIRECTION_UNIT
        && -DIRECTION_UNIT <= self.z <= DIRECTION_UNIT
    }

    /// Squared length, exactly, in a type wide enough for any components.
    pub fn length_squared(&self) -> (r: u128)
        ensures
            r == self.norm_sq(),
    {
        let x = self.x as i128;
        let y = self.y as i128;
        let z = self.z as i128;
        proof {
            assert(0 <= x * x <= 0x4000_0000_0000_0000_0000_0000_0000_0000) by (nonlinear_arith)
                requires -0x8000_0000_0000_0000 <= x <= 0x7fff_ffff_ffff_ffff;
            assert(0 <= y * y <= 0x4000_0000_0000_0000_0000_0000_0000_0000) by (nonlinear_arith)
                requires -0x8000_0000_0000_0000 <= y <= 0x7fff_ffff_ffff_ffff;
            assert(0 <= z * z <= 0x4000_0000_0000_0000_0000_0000_0000_0000) by (nonlinear_arith)
                requires -0x8000_0000_0000_0000 <= z <= 0x7fff_ffff_ffff_ffff;
        }
        let xx = (x * x) as u128;
        let yy = (y * y) as u128;
        let zz = (z * z) as u128;
        xx + yy + zz
    }
}

} // verus!
