//! Scalar render parameters as 32-bit IEEE 754 bit patterns.
//!
//! The shader-facing contract of this crate is bit-exact: what matters about
//! every scalar field is the exact 32-bit pattern that reaches the uniform
//! buffer. Holding the patterns themselves keeps every field verifiably
//! unchanged from the editing surface to the encoded buffer, and lets range
//! clamping be stated precisely over a total order on patterns.

use vstd::prelude::*;

verus! {

/// Bit pattern of 0.0.
pub const BITS_ZERO: u32 = 0x0000_0000;
/// Bit pattern of 1.0.
pub const BITS_ONE: u32 = 0x3F80_0000;
/// Bit pattern of -1.0.
pub const BITS_NEG_ONE: u32 = 0xBF80_0000;
/// Bit pattern of 0.5.
pub const BITS_HALF: u32 = 0x3F00_0000;

/// Sign-magnitude order key of a bit pattern.
///
/// For every pattern that is not a NaN, this key orders exactly as the
/// encoded values order, with the two zero patterns sharing key 0. NaN
/// patterns are ordered by sign and payload, so the key is total and the
/// clamping contract below is exact on every input.
pub open spec fn fkey(bits: u32) -> int {
    if bits >= 0x8000_0000 {
        -(bits - 0x8000_0000)
    } else {
        bits as int
    }
}

/// Decides `fkey(a) <= fkey(b)` on the patterns alone.
pub fn fbits_le(a: u32, b: u32) -> (r: bool)
    ensures
        r == (fkey(a) <= fkey(b)),
{
    if a >= 0x8000_0000 {
        if b >= 0x8000_0000 {
            b <= a
        } else {
            true
        }
    } else {
        if b >= 0x8000_0000 {
            a == 0 && b == 0x8000_0000
        } else {
            a <= b
        }
    }
}

/// The clamped pattern: `lo` below the range, `hi` above it, `v` inside it.
pub open spec fn spec_clamp(v: u32, lo: u32, hi: u32) -> u32 {
    if fkey(v) < fkey(lo) {
        lo
    } else if fkey(hi) < fkey(v) {
        hi
    } else {
        v
    }
}

/// Clamps a pattern into the range `[lo, hi]` under the pattern order.
pub fn clamp_bits(v: u32, lo: u32, hi: u32) -> (r: u32)
    ensures
        r == spec_clamp(v, lo, hi),
{
    if !fbits_le(lo, v) {
        lo
    } else if !fbits_le(v, hi) {
        hi
    } else {
        v
    }
}

/// The next pattern above `b` in the `fkey` order, saturating at the top of
/// the order. For a positive finite value this is the next representable
/// value up.
pub open spec fn spec_key_successor(b: u32) -> u32 {
    if b >= 0x8000_0000 {
        if b == 0x8000_0000 {
            1u32
        } else {
            (b - 1) as u32
        }
    } else {
        if b == 0x7FFF_FFFF {
            b
        } else {
            (b + 1) as u32
        }
    }
}

/// The next pattern below `b` in the `fkey` order, saturating at the bottom.
pub open spec fn spec_key_predecessor(b: u32) -> u32 {
    if b < 0x8000_0000 {
        if b == 0 {
            0x8000_0001u32
        } else {
            (b - 1) as u32
        }
    } else {
        if b == 0xFFFF_FFFF {
            b
        } else {
            (b + 1) as u32
        }
    }
}

/// Computes the pattern just above `b` in the `fkey` order.
pub fn key_successor(b: u32) -> (r: u32)
    ensures
        r == spec_key_successor(b),
{
    if b >= 0x8000_0000 {
        if b == 0x8000_0000 {
            1
        } else {
            b - 1
        }
    } else {
        if b == 0x7FFF_FFFF {
            b
        } else {
            b + 1
        }
    }
}

/// Computes the pattern just below `b` in the `fkey` order.
pub fn key_predecessor(b: u32) -> (r: u32)
    ensures
        r == spec_key_predecessor(b),
{
    if b < 0x8000_0000 {
        if b == 0 {
            0x8000_0001
        } else {
            b - 1
        }
    } else {
        if b == 0xFFFF_FFFF {
            b
        } else {
            b + 1
        }
    }
}

/// Clamping never leaves the declared range, and a value already inside the
/// range passes through unchanged.
pub proof fn lemma_clamp_within(v: u32, lo: u32, hi: u32)
    requires
        fkey(lo) <= fkey(hi),
    ensures
        fkey(lo) <= fkey(spec_clamp(v, lo, hi)),
        fkey(spec_clamp(v, lo, hi)) <= fkey(hi),
        fkey(lo) <= fkey(v) && fkey(v) <= fkey(hi) ==> spec_clamp(v, lo, hi) == v,
{
}

/// Two packed scalars, as the shader's `vec2` declares them.
#[derive(Clone, Copy, PartialEq, Eq, Structural, Debug)]
pub struct Vec2Bits {
    pub x: u32,
    pub y: u32,
}

/// Three packed scalars, as the shader's `vec3` declares them.
#[derive(Clone, Copy, PartialEq, Eq, Structural, Debug)]
pub struct Vec3Bits {
    pub x: u32,
    pub y: u32,
    pub z: u32,
}

/// Four packed scalars, as the shader's `vec4` declares them.
#[derive(Clone, Copy, PartialEq, Eq, Structural, Debug)]
pub struct Vec4Bits {
    pub x: u32,
    pub y: u32,
    pub z: u32,
    pub w: u32,
}

} // verus!
