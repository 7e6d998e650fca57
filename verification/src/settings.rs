//! Scene-wide composition and rendering parameters.

use vstd::prelude::*;

use crate::fbits::fkey;
use crate::fbits::Vec4Bits;
use crate::fbits::BITS_ZERO;

verus! {

/// Bit pattern of 10.0, the default far clip.
pub const BITS_DEFAULT_FAR_CLIP: u32 = 0x4120_0000;
/// Bit pattern of 0.001, the default termination distance.
pub const BITS_DEFAULT_TERMINATION: u32 = 0x3A83_126F;

/// Boolean combination applied between the two primitives' distance fields.
#[derive(Clone, Copy, PartialEq, Eq, Structural, Debug)]
pub enum IntersectionMethod {
    Or,
    And,
    Not,
}

/// Numeric method encoding of the shader contract: 0 = or, 1 = and, 2 = not.
pub open spec fn method_code(m: IntersectionMethod) -> u32 {
    match m {
        IntersectionMethod::Or => 0u32,
        IntersectionMethod::And => 1u32,
        IntersectionMethod::Not => 2u32,
    }
}

/// The emitted method code always lies in the shader's enumeration.
pub proof fn lemma_method_code_in_range(m: IntersectionMethod)
    ensures
        method_code(m) <= 2,
{
}

/// The method rebuilt from its code, for decoding a buffer.
pub open spec fn method_of_code(code: u32) -> Option<IntersectionMethod> {
    if code == 0 {
        Some(IntersectionMethod::Or)
    } else if code == 1 {
        Some(IntersectionMethod::And)
    } else if code == 2 {
        Some(IntersectionMethod::Not)
    } else {
        None
    }
}

/// Encoding and rebuilding a method is the identity.
pub proof fn lemma_method_code_inverse(m: IntersectionMethod)
    ensures
        method_of_code(method_code(m)) == Some(m),
{
}

/// The global settings block. All scalars are 32-bit IEEE 754 bit patterns.
#[derive(Clone, Copy, PartialEq, Eq, Structural, Debug)]
pub struct GlobalRenderSettings {
    pub intersection_method: IntersectionMethod,
    /// Smoothing blend factor of the boolean operation; 0 is a hard boolean.
    pub intersection_smooth_amount: u32,
    pub glow_range: u32,
    pub glow_color: Vec4Bits,
    /// Maximum ray travel distance.
    pub far_clip: u32,
    /// Minimum step at which the marcher declares a hit.
    pub termination_distance: u32,
    /// Elapsed seconds since start, refreshed every frame.
    pub time: u32,
}

/// The ray-march loop bounds that keep the shader's loop terminating: the
/// termination distance is strictly positive and the far clip lies strictly
/// beyond it, under the pattern order of `fkey`.
pub open spec fn settings_well_formed(s: GlobalRenderSettings) -> bool {
    &&& fkey(s.termination_distance) > fkey(BITS_ZERO)
    &&& fkey(s.far_clip) > fkey(s.termination_distance)
}

/// The documented default settings: a hard union, no glow, far clip 10.0,
/// termination distance 0.001, time zero.
pub open spec fn default_settings() -> GlobalRenderSettings {
    GlobalRenderSettings {
        intersection_method: IntersectionMethod::Or,
        intersection_smooth_amount: BITS_ZERO,
        glow_range: BITS_ZERO,
        glow_color: Vec4Bits { x: BITS_ZERO, y: BITS_ZERO, z: BITS_ZERO, w: BITS_ZERO },
        far_clip: BITS_DEFAULT_FAR_CLIP,
        termination_distance: BITS_DEFAULT_TERMINATION,
        time: BITS_ZERO,
    }
}

/// The defaults satisfy the loop-bound invariant.
pub proof fn lemma_default_settings_well_formed()
    ensures
        settings_well_formed(default_settings()),
{
}

impl Default for GlobalRenderSettings {
    /// Constructs the documented default settings.
    fn default() -> (r: Self)
        ensures
            r == default_settings(),
    {
        GlobalRenderSettings {
            intersection_method: IntersectionMethod::Or,
            intersection_smooth_amount: BITS_ZERO,
            glow_range: BITS_ZERO,
            glow_color: Vec4Bits { x: BITS_ZERO, y: BITS_ZERO, z: BITS_ZERO, w: BITS_ZERO },
            far_clip: BITS_DEFAULT_FAR_CLIP,
            termination_distance: BITS_DEFAULT_TERMINATION,
            time: BITS_ZERO,
        }
    }
}

} // verus!
