//! The editing facade: range-constrained write accessors for every field
//! the interactive editing surface drives, on the scene and the camera.
//!
//! Each accessor declares its field's legal numeric range and clamps
//! out-of-range input instead of rejecting it, so an edit always succeeds
//! and the stored pattern always lies inside the declared range.

use vstd::prelude::*;

use crate::fbits::clamp_bits;
use crate::fbits::fkey;
use crate::fbits::fbits_le;
use crate::fbits::key_predecessor;
use crate::fbits::key_successor;
use crate::fbits::spec_clamp;
use crate::fbits::spec_key_predecessor;
use crate::fbits::spec_key_successor;
use crate::fbits::Vec3Bits;
use crate::fbits::Vec4Bits;
use crate::fbits::BITS_HALF;
use crate::fbits::BITS_NEG_ONE;
use crate::fbits::BITS_ONE;
use crate::fbits::BITS_ZERO;
use crate::camera::OrbitCamera;
use crate::layout::scene_words;
use crate::layout::WORD_GLOBAL_SMOOTH;
use crate::layout::WORD_PRIMARY_ROUGHNESS;
use crate::primitive::kind_of;
use crate::primitive::shape_scale;
use crate::primitive::shape_var;
use crate::primitive::shape_with_kind;
use crate::primitive::PrimitiveDescriptor;
use crate::primitive::Shape;
use crate::primitive::ShapeKind;
use crate::scene::SceneDescriptor;
use crate::settings::settings_well_formed;
use crate::settings::GlobalRenderSettings;
use crate::settings::IntersectionMethod;

verus! {

/// Bit pattern of pi, the upper rotation bound.
pub const BITS_PI: u32 = 0x4049_0FDB;
/// Bit pattern of -pi, the lower rotation bound.
pub const BITS_NEG_PI: u32 = 0xC049_0FDB;
/// Bit pattern of 20.0, the upper far-clip bound.
pub const BITS_TWENTY: u32 = 0x41A0_0000;
/// Bit pattern of 10.0, the upper camera height and distance bound.
pub const BITS_TEN: u32 = 0x4120_0000;
/// Bit pattern of 0.0001, the lower termination-distance bound.
pub const BITS_MIN_TERMINATION: u32 = 0x38D1_B717;

/// A color with each channel clamped to the normalized range [0, 1].
pub open spec fn unit_clamped4(c: Vec4Bits) -> Vec4Bits {
    Vec4Bits {
        x: spec_clamp(c.x, BITS_ZERO, BITS_ONE),
        y: spec_clamp(c.y, BITS_ZERO, BITS_ONE),
        z: spec_clamp(c.z, BITS_ZERO, BITS_ONE),
        w: spec_clamp(c.w, BITS_ZERO, BITS_ONE),
    }
}

/// A color triple with each channel clamped to [0, 1].
pub open spec fn unit_clamped3(c: Vec3Bits) -> Vec3Bits {
    Vec3Bits {
        x: spec_clamp(c.x, BITS_ZERO, BITS_ONE),
        y: spec_clamp(c.y, BITS_ZERO, BITS_ONE),
        z: spec_clamp(c.z, BITS_ZERO, BITS_ONE),
    }
}

/// Clamps every channel of a color to [0, 1].
fn clamp_color4(c: Vec4Bits) -> (r: Vec4Bits)
    ensures
        r == unit_clamped4(c),
{
    Vec4Bits {
        x: clamp_bits(c.x, BITS_ZERO, BITS_ONE),
        y: clamp_bits(c.y, BITS_ZERO, BITS_ONE),
        z: clamp_bits(c.z, BITS_ZERO, BITS_ONE),
        w: clamp_bits(c.w, BITS_ZERO, BITS_ONE),
    }
}

/// Clamps every channel of a color triple to [0, 1].
fn clamp_color3(c: Vec3Bits) -> (r: Vec3Bits)
    ensures
        r == unit_clamped3(c),
{
    Vec3Bits {
        x: clamp_bits(c.x, BITS_ZERO, BITS_ONE),
        y: clamp_bits(c.y, BITS_ZERO, BITS_ONE),
        z: clamp_bits(c.z, BITS_ZERO, BITS_ONE),
    }
}

impl PrimitiveDescriptor {
    /// The current shape kind, as a selection widget displays it.
    pub fn shape_kind(&self) -> (k: ShapeKind)
        ensures
            k == kind_of(self.shape),
    {
        match self.shape {
            Shape::Sphere { .. } => ShapeKind::Sphere,
            Shape::Cube { .. } => ShapeKind::Cube,
            Shape::Cone { .. } => ShapeKind::Cone,
            Shape::Mandelbulb { .. } => ShapeKind::Mandelbulb,
        }
    }

    /// Switches the shape's kind, keeping both shape parameter slots.
    pub fn set_shape_kind(&mut self, k: ShapeKind)
        ensures
            *final(self) == (PrimitiveDescriptor {
                shape: shape_with_kind(k, shape_var(old(self).shape), shape_scale(old(self).shape)),
                ..*old(self)
            }),
    {
        let (var, scale): (u32, u32) = match self.shape {
            Shape::Sphere { radius, scale } => (radius, scale),
            Shape::Cube { side, scale } => (side, scale),
            Shape::Cone { height, radius } => (height, radius),
            Shape::Mandelbulb { power, scale } => (power, scale),
        };
        self.shape = match k {
            ShapeKind::Sphere => Shape::Sphere { radius: var, scale },
            ShapeKind::Cube => Shape::Cube { side: var, scale },
            ShapeKind::Cone => Shape::Cone { height: var, radius: scale },
            ShapeKind::Mandelbulb => Shape::Mandelbulb { power: var, scale },
        };
    }

    /// Sets the x position, clamped to [-1, 1].
    pub fn set_position_x(&mut self, v: u32)
        ensures
            *final(self) == (PrimitiveDescriptor {
                world_position: Vec3Bits {
                    x: spec_clamp(v, BITS_NEG_ONE, BITS_ONE),
                    ..old(self).world_position
                },
                ..*old(self)
            }),
    {
        self.world_position.x = clamp_bits(v, BITS_NEG_ONE, BITS_ONE);
    }

    /// Sets the y position, clamped to [-1, 1].
    pub fn set_position_y(&mut self, v: u32)
        ensures
            *final(self) == (PrimitiveDescriptor {
                world_position: Vec3Bits {
                    y: spec_clamp(v, BITS_NEG_ONE, BITS_ONE),
                    ..old(self).world_position
                },
                ..*old(self)
            }),
    {
        self.world_position.y = clamp_bits(v, BITS_NEG_ONE, BITS_ONE);
    }

    /// Sets the z position, clamped to [-1, 1].
    pub fn set_position_z(&mut self, v: u32)
        ensures
            *final(self) == (PrimitiveDescriptor {
                world_position: Vec3Bits {
                    z: spec_clamp(v, BITS_NEG_ONE, BITS_ONE),
                    ..old(self).world_position
                },
                ..*old(self)
            }),
    {
        self.world_position.z = clamp_bits(v, BITS_NEG_ONE, BITS_ONE);
    }

    /// Sets the rotation about x, clamped to [-pi, pi].
    pub fn set_rotation_x(&mut self, v: u32)
        ensures
            *final(self) == (PrimitiveDescriptor {
                rotation: Vec3Bits {
                    x: spec_clamp(v, BITS_NEG_PI, BITS_PI),
                    ..old(self).rotation
                },
                ..*old(self)
            }),
    {
        self.rotation.x = clamp_bits(v, BITS_NEG_PI, BITS_PI);
    }

    /// Sets the rotation-over-time coefficient, clamped to [0, 1].
    pub fn set_rotation_amount(&mut self, v: u32)
        ensures
            *final(self) == (PrimitiveDescriptor {
                rotation_amount: spec_clamp(v, BITS_ZERO, BITS_ONE),
                ..*old(self)
            }),
    {
        self.rotation_amount = clamp_bits(v, BITS_ZERO, BITS_ONE);
    }

    /// Sets the translation-over-time coefficient, clamped to [0, 1].
    pub fn set_move_amount(&mut self, v: u32)
        ensures
            *final(self) == (PrimitiveDescriptor {
                move_amount: spec_clamp(v, BITS_ZERO, BITS_ONE),
                ..*old(self)
            }),
    {
        self.move_amount = clamp_bits(v, BITS_ZERO, BITS_ONE);
    }

    /// Sets the perceptual roughness, clamped to [0, 1].
    pub fn set_perceptual_roughness(&mut self, v: u32)
        ensures
            *final(self) == (PrimitiveDescriptor {
                perceptual_roughness: spec_clamp(v, BITS_ZERO, BITS_ONE),
                ..*old(self)
            }),
    {
        self.perceptual_roughness = clamp_bits(v, BITS_ZERO, BITS_ONE);
    }

    /// Sets the metallic value, clamped to [0, 1].
    pub fn set_metallic(&mut self, v: u32)
        ensures
            *final(self) == (PrimitiveDescriptor {
                metallic: spec_clamp(v, BITS_ZERO, BITS_ONE),
                ..*old(self)
            }),
    {
        self.metallic = clamp_bits(v, BITS_ZERO, BITS_ONE);
    }

    /// Sets the clearcoat strength, clamped to [0, 1].
    pub fn set_clearcoat(&mut self, v: u32)
        ensures
            *final(self) == (PrimitiveDescriptor {
                clearcoat: spec_clamp(v, BITS_ZERO, BITS_ONE),
                ..*old(self)
            }),
    {
        self.clearcoat = clamp_bits(v, BITS_ZERO, BITS_ONE);
    }

    /// Sets the clearcoat roughness, clamped to [0, 1].
    pub fn set_clearcoat_perceptual_roughness(&mut self, v: u32)
        ensures
            *final(self) == (PrimitiveDescriptor {
                clearcoat_perceptual_roughness: spec_clamp(v, BITS_ZERO, BITS_ONE),
                ..*old(self)
            }),
    {
        self.clearcoat_perceptual_roughness = clamp_bits(v, BITS_ZERO, BITS_ONE);
    }

    /// Sets the base color, each channel clamped to [0, 1].
    pub fn set_base_color(&mut self, c: Vec4Bits)
        ensures
            *final(self) == (PrimitiveDescriptor { base_color: unit_clamped4(c), ..*old(self) }),
    {
        self.base_color = clamp_color4(c);
    }

    /// Sets the emissive color, each channel clamped to [0, 1].
    pub fn set_emissive(&mut self, c: Vec4Bits)
        ensures
            *final(self) == (PrimitiveDescriptor { emissive: unit_clamped4(c), ..*old(self) }),
    {
        self.emissive = clamp_color4(c);
    }

    /// Sets the reflectance, each channel clamped to [0, 1].
    pub fn set_reflectance(&mut self, c: Vec3Bits)
        ensures
            *final(self) == (PrimitiveDescriptor { reflectance: unit_clamped3(c), ..*old(self) }),
    {
        self.reflectance = clamp_color3(c);
    }
}

/// The far clip an edit produces: the value clamped to the declared range
/// [0, 20], with the lower bound raised to just above the current
/// termination distance so the ray-march loop bounds stay consistent. In
/// the degenerate state where even that lower bound exceeds 20, the edit
/// leaves the field as it is.
pub open spec fn spec_far_clip_edit(s: GlobalRenderSettings, v: u32) -> u32 {
    let above = spec_key_successor(s.termination_distance);
    let lo = if fkey(above) > fkey(BITS_ZERO) {
        above
    } else {
        BITS_ZERO
    };
    if fkey(lo) <= fkey(BITS_TWENTY) {
        spec_clamp(v, lo, BITS_TWENTY)
    } else {
        s.far_clip
    }
}

/// The termination distance an edit produces: the value clamped to the
/// declared range [0.0001, 0.5], with the upper bound lowered to just below
/// the current far clip. In the degenerate state where even that upper
/// bound falls under 0.0001, the edit leaves the field as it is.
pub open spec fn spec_termination_edit(s: GlobalRenderSettings, v: u32) -> u32 {
    let below = spec_key_predecessor(s.far_clip);
    let hi = if fkey(below) < fkey(BITS_HALF) {
        below
    } else {
        BITS_HALF
    };
    if fkey(BITS_MIN_TERMINATION) <= fkey(hi) {
        spec_clamp(v, BITS_MIN_TERMINATION, hi)
    } else {
        s.termination_distance
    }
}

impl GlobalRenderSettings {
    /// Sets the far clip, clamped to [0, 20] and kept strictly above the
    /// current termination distance, so an edit never breaks the loop-bound
    /// invariant.
    pub fn set_far_clip(&mut self, v: u32)
        ensures
            *final(self) == (GlobalRenderSettings {
                far_clip: spec_far_clip_edit(*old(self), v),
                ..*old(self)
            }),
            settings_well_formed(*old(self)) ==> settings_well_formed(*final(self)),
    {
        let above = key_successor(self.termination_distance);
        let lo = if fbits_le(above, BITS_ZERO) {
            BITS_ZERO
        } else {
            above
        };
        if fbits_le(lo, BITS_TWENTY) {
            self.far_clip = clamp_bits(v, lo, BITS_TWENTY);
        }
    }

    /// Sets the termination distance, clamped to [0.0001, 0.5] and kept
    /// strictly below the current far clip, so an edit never breaks the
    /// loop-bound invariant.
    pub fn set_termination_distance(&mut self, v: u32)
        ensures
            *final(self) == (GlobalRenderSettings {
                termination_distance: spec_termination_edit(*old(self), v),
                ..*old(self)
            }),
            settings_well_formed(*old(self)) ==> settings_well_formed(*final(self)),
    {
        let below = key_predecessor(self.far_clip);
        let hi = if fbits_le(BITS_HALF, below) {
            BITS_HALF
        } else {
            below
        };
        if fbits_le(BITS_MIN_TERMINATION, hi) {
            self.termination_distance = clamp_bits(v, BITS_MIN_TERMINATION, hi);
        }
    }

    /// Sets the glow range, clamped to [0, 1].
    pub fn set_glow_range(&mut self, v: u32)
        ensures
            *final(self) == (GlobalRenderSettings {
                glow_range: spec_clamp(v, BITS_ZERO, BITS_ONE),
                ..*old(self)
            }),
    {
        self.glow_range = clamp_bits(v, BITS_ZERO, BITS_ONE);
    }

    /// Sets the glow color, each channel clamped to [0, 1].
    pub fn set_glow_color(&mut self, c: Vec4Bits)
        ensures
            *final(self) == (GlobalRenderSettings { glow_color: unit_clamped4(c), ..*old(self) }),
    {
        self.glow_color = clamp_color4(c);
    }

    /// Selects the boolean combination of the two distance fields.
    pub fn set_intersection_method(&mut self, m: IntersectionMethod)
        ensures
            *final(self) == (GlobalRenderSettings { intersection_method: m, ..*old(self) }),
    {
        self.intersection_method = m;
    }

    /// Sets the smoothing blend factor, clamped to [0, 1].
    pub fn set_intersection_smooth_amount(&mut self, v: u32)
        ensures
            *final(self) == (GlobalRenderSettings {
                intersection_smooth_amount: spec_clamp(v, BITS_ZERO, BITS_ONE),
                ..*old(self)
            }),
    {
        self.intersection_smooth_amount = clamp_bits(v, BITS_ZERO, BITS_ONE);
    }
}

impl OrbitCamera {
    /// Sets the angular speed, clamped to [0, 1].
    pub fn set_speed(&mut self, v: u32)
        ensures
            *final(self) == (OrbitCamera { speed: spec_clamp(v, BITS_ZERO, BITS_ONE), ..*old(self) }),
    {
        self.speed = clamp_bits(v, BITS_ZERO, BITS_ONE);
    }

    /// Sets the orbit distance, clamped to [0, 10]. Distance zero is not an
    /// error: the orbit collapses to a stationary point above the target.
    pub fn set_distance(&mut self, v: u32)
        ensures
            *final(self) == (OrbitCamera {
                distance: spec_clamp(v, BITS_ZERO, BITS_TEN),
                ..*old(self)
            }),
    {
        self.distance = clamp_bits(v, BITS_ZERO, BITS_TEN);
    }

    /// Sets the orbit height, clamped to [0, 10].
    pub fn set_height(&mut self, v: u32)
        ensures
            *final(self) == (OrbitCamera {
                height: spec_clamp(v, BITS_ZERO, BITS_TEN),
                ..*old(self)
            }),
    {
        self.height = clamp_bits(v, BITS_ZERO, BITS_TEN);
    }

    /// Sets the sway amount, clamped to [0, 1].
    pub fn set_sway_amount(&mut self, v: u32)
        ensures
            *final(self) == (OrbitCamera {
                sway_amount: spec_clamp(v, BITS_ZERO, BITS_ONE),
                ..*old(self)
            }),
    {
        self.sway_amount = clamp_bits(v, BITS_ZERO, BITS_ONE);
    }

    /// Sets the orbit target.
    pub fn set_look_at(&mut self, v: Vec3Bits)
        ensures
            *final(self) == (OrbitCamera { look_at: v, ..*old(self) }),
    {
        self.look_at = v;
    }
}

/// A facade edit of the primary primitive's roughness is reflected in the
/// encoded buffer on the very next synchronization: its word holds the newly
/// clamped value, and no other word moves.
pub proof fn lemma_roughness_edit_next_sync(s: SceneDescriptor, v: u32)
    ensures
        ({
            let edited = SceneDescriptor {
                primary: PrimitiveDescriptor {
                    perceptual_roughness: spec_clamp(v, BITS_ZERO, BITS_ONE),
                    ..s.primary
                },
                ..s
            };
            scene_words(edited) == scene_words(s).update(
                WORD_PRIMARY_ROUGHNESS as int,
                spec_clamp(v, BITS_ZERO, BITS_ONE),
            )
        }),
{
    let edited = SceneDescriptor {
        primary: PrimitiveDescriptor {
            perceptual_roughness: spec_clamp(v, BITS_ZERO, BITS_ONE),
            ..s.primary
        },
        ..s
    };
    assert(scene_words(edited) =~= scene_words(s).update(
        WORD_PRIMARY_ROUGHNESS as int,
        spec_clamp(v, BITS_ZERO, BITS_ONE),
    ));
}

/// A facade edit of the smoothing blend factor is likewise reflected at its
/// own word on the very next synchronization, and nowhere else.
pub proof fn lemma_smooth_edit_next_sync(s: SceneDescriptor, v: u32)
    ensures
        ({
            let edited = SceneDescriptor {
                settings: GlobalRenderSettings {
                    intersection_smooth_amount: spec_clamp(v, BITS_ZERO, BITS_ONE),
                    ..s.settings
                },
                ..s
            };
            scene_words(edited) == scene_words(s).update(
                WORD_GLOBAL_SMOOTH as int,
                spec_clamp(v, BITS_ZERO, BITS_ONE),
            )
        }),
{
    let edited = SceneDescriptor {
        settings: GlobalRenderSettings {
            intersection_smooth_amount: spec_clamp(v, BITS_ZERO, BITS_ONE),
            ..s.settings
        },
        ..s
    };
    assert(scene_words(edited) =~= scene_words(s).update(
        WORD_GLOBAL_SMOOTH as int,
        spec_clamp(v, BITS_ZERO, BITS_ONE),
    ));
}

} // verus!
