//! Random velocities for the splash burst.
//!
//! The burst gives each particle an independent velocity: sideways components
//! uniform in [-2, 2) and an upward component uniform in [2, 5), in units of
//! the host's coordinates, so in milli-units [-2000, 2000) and [2000, 5000).
//! The draw itself comes from the `rand` crate; everything after it is
//! verified for every value the draw can return.

use vstd::prelude::*;
use rand::Rng;

use crate::geom::Vec3Milli;

verus! {

/// A velocity the splash burst may give a particle: sideways components in
/// [-2, 2) and an upward component in [2, 5), in milli-units.
pub open spec fn splash_velocity_ok(v: Vec3Milli) -> bool {
    &&& -2000 <= v.x < 2000
    &&& 2000 <= v.y < 5000
    &&& -2000 <= v.z < 2000
}

/// Relies on rand::Rng::gen_range over the half-open range lo..hi: the sample
/// lies in [lo, hi). The range must not be empty, or the call panics.
#[verifier::external_body]
fn sample_milli(lo: i64, hi: i64) -> (r: i64)
    requires
        lo < hi,
    ensures
        lo <= r < hi,
{
    rand::thread_rng().gen_range(lo..hi)
}

/// Draws one particle velocity for the splash burst.
pub fn splash_velocity() -> (v: Vec3Milli)
    ensures
        splash_velocity_ok(v),
{
    let x: i64 = sample_milli(-2000, 2000);
    let y: i64 = sample_milli(2000, 5000);
    let z: i64 = sample_milli(-2000, 2000);
    Vec3Milli { x, y, z }
}

} // verus!
