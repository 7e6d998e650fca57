//! The orbiting camera's tunable parameters.
//!
//! The pose derived from them each frame — a circular orbit of radius
//! `distance` around `look_at` at angular rate `speed`, with the vertical
//! sway `height + sway_amount * sin(time * speed / 0.35)` — is a pure
//! function of the elapsed time and these parameters, so the camera holds no
//! orientation state and cannot drift. Evaluating that trigonometry is
//! numeric work left to the rendering layer; this crate owns the parameters
//! and their range-clamped editing.

use vstd::prelude::*;

use crate::fbits::Vec3Bits;
use crate::fbits::BITS_HALF;
use crate::fbits::BITS_ONE;
use crate::fbits::BITS_ZERO;

verus! {

/// Bit pattern of 2.0, the default orbit height.
pub const BITS_DEFAULT_HEIGHT: u32 = 0x4000_0000;
/// Bit pattern of 4.0, the default orbit distance.
pub const BITS_DEFAULT_DISTANCE: u32 = 0x4080_0000;

/// The orbit parameters. All scalars are 32-bit IEEE 754 bit patterns.
#[derive(Clone, Copy, PartialEq, Eq, Structural, Debug)]
pub struct OrbitCamera {
    pub height: u32,
    pub distance: u32,
    pub speed: u32,
    pub sway_amount: u32,
    pub look_at: Vec3Bits,
}

/// The documented default orbit: height 2, distance 4, speed 0.5, sway 1,
/// looking at (0, 0.5, 0).
pub open spec fn default_camera() -> OrbitCamera {
    OrbitCamera {
        height: BITS_DEFAULT_HEIGHT,
        distance: BITS_DEFAULT_DISTANCE,
        speed: BITS_HALF,
        sway_amount: BITS_ONE,
        look_at: Vec3Bits { x: BITS_ZERO, y: BITS_HALF, z: BITS_ZERO },
    }
}

impl Default for OrbitCamera {
    /// Constructs the documented default orbit.
    fn default() -> (r: Self)
        ensures
            r == default_camera(),
    {
        OrbitCamera {
            height: BITS_DEFAULT_HEIGHT,
            distance: BITS_DEFAULT_DISTANCE,
            speed: BITS_HALF,
            sway_amount: BITS_ONE,
            look_at: Vec3Bits { x: BITS_ZERO, y: BITS_HALF, z: BITS_ZERO },
        }
    }
}

} // verus!
