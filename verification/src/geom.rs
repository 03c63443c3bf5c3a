//! Fixed-point geometry.
//!
//! Positions, scales and velocities are held in milli-units: a field value of
//! 1000 stands for 1.0 of the host's coordinates. All of the scene's rules
//! are exact over these integers.

use vstd::prelude::*;

verus! {

/// A point or vector in milli-units.
#[derive(Clone, Copy, PartialEq, Eq, Structural, Debug)]
pub struct Vec3Milli {
    pub x: i64,
    pub y: i64,
    pub z: i64,
}

impl Vec3Milli {
    /// The zero vector.
    pub open spec fn zero_spec() -> Vec3Milli {
        Vec3Milli { x: 0, y: 0, z: 0 }
    }

    /// The zero vector.
    pub fn zero() -> (v: Vec3Milli)
        ensures
            v == Self::zero_spec(),
    {
        Vec3Milli { x: 0, y: 0, z: 0 }
    }
}

} // verus!
