//! The orbiting light.
//!
//! Each frame the rotating light stands on a circle of radius four at height
//! eight: position (4·cos t, 8, 4·sin t) for the elapsed time t. The host
//! samples the two waves and hands them in as milli-unit values; the position
//! is then exact in milli-units.

use vstd::prelude::*;

use crate::geom::Vec3Milli;

verus! {

/// Position of the orbiting light, given the cosine and sine of the elapsed
/// time as milli-unit samples in [-1000, 1000]: a fixed-radius circular orbit
/// at constant height.
pub fn light_position(cos_t: i64, sin_t: i64) -> (p: Vec3Milli)
    requires
        -1000 <= cos_t <= 1000,
        -1000 <= sin_t <= 1000,
    ensures
        p.x == 4 * cos_t,
        p.y == 8000,
        p.z == 4 * sin_t,
{
    Vec3Milli { x: 4 * cos_t, y: 8000, z: 4 * sin_t }
}

} // verus!
