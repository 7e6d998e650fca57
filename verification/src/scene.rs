//! The aggregate scene description: exactly two primitives plus one global
//! settings block, and the closed set of named presets.

use vstd::prelude::*;

use crate::fbits::Vec3Bits;
use crate::fbits::Vec4Bits;
use crate::fbits::BITS_HALF;
use crate::fbits::BITS_ONE;
use crate::fbits::BITS_ZERO;
use crate::primitive::default_primitive;
use crate::primitive::shape_code;
use crate::primitive::shape_scale;
use crate::primitive::shape_var;
use crate::primitive::shape_with_kind;
use crate::primitive::PrimitiveDescriptor;
use crate::primitive::Shape;
use crate::primitive::ShapeKind;
use crate::primitive::BITS_DEFAULT_SCALE;
use crate::settings::default_settings;
use crate::settings::settings_well_formed;
use crate::settings::GlobalRenderSettings;
use crate::settings::IntersectionMethod;

verus! {

/// Bit pattern of -0.5.
pub const BITS_NEG_HALF: u32 = 0xBF00_0000;
/// Bit pattern of 0.75.
pub const BITS_0_75: u32 = 0x3F40_0000;
/// Bit pattern of 0.3.
pub const BITS_0_3: u32 = 0x3E99_999A;
/// Bit pattern of 0.6.
pub const BITS_0_6: u32 = 0x3F19_999A;
/// Bit pattern of 0.8.
pub const BITS_0_8: u32 = 0x3F4C_CCCD;
/// Bit pattern of 1.85, the mandelbulb preset's fractal power.
pub const BITS_1_85: u32 = 0x3FEC_CCCD;

/// The complete scene description. Always fully populated: a value of this
/// type cannot hold a partial scene, and presets replace it wholesale.
#[derive(Clone, Copy, PartialEq, Eq, Structural, Debug)]
pub struct SceneDescriptor {
    pub primary: PrimitiveDescriptor,
    pub secondary: PrimitiveDescriptor,
    pub settings: GlobalRenderSettings,
}

/// The default scene: two default spheres and default settings.
pub open spec fn default_scene() -> SceneDescriptor {
    SceneDescriptor {
        primary: default_primitive(),
        secondary: default_primitive(),
        settings: default_settings(),
    }
}

impl Default for SceneDescriptor {
    /// Constructs the default scene.
    fn default() -> (r: Self)
        ensures
            r == default_scene(),
    {
        SceneDescriptor {
            primary: PrimitiveDescriptor::default(),
            secondary: PrimitiveDescriptor::default(),
            settings: GlobalRenderSettings::default(),
        }
    }
}

/// The closed, compile-time-known set of preset configurations.
#[derive(Clone, Copy, PartialEq, Eq, Structural, Debug)]
pub enum Preset {
    Default,
    Smooth,
    NotIntersection,
    Mandelbulb,
}

/// The secondary primitive shared by the first three presets: the default
/// primitive moved to (-0.5, 0.75, 0.4), recolored green, switched to a
/// cube (keeping the default shape parameter slots), with the given
/// metallic value and rotation rate.
pub open spec fn preset_secondary(metallic: u32, rotation_amount: u32) -> PrimitiveDescriptor {
    PrimitiveDescriptor {
        world_position: Vec3Bits { x: BITS_NEG_HALF, y: BITS_0_75, z: BITS_DEFAULT_SCALE },
        base_color: Vec4Bits { x: BITS_ZERO, y: BITS_ONE, z: BITS_ZERO, w: BITS_ONE },
        rotation_amount: rotation_amount,
        metallic: metallic,
        shape: shape_with_kind(
            ShapeKind::Cube,
            shape_var(default_primitive().shape),
            shape_scale(default_primitive().shape),
        ),
        ..default_primitive()
    }
}

/// The "Default" preset: the default scene with the preset secondary cube
/// spinning at rate 0.5.
pub open spec fn preset_default() -> SceneDescriptor {
    SceneDescriptor { secondary: preset_secondary(BITS_ZERO, BITS_HALF), ..default_scene() }
}

/// The "Smooth" preset: the secondary cube turns metallic (0.6), spins at
/// rate 0.3, and the boolean operation is smoothed by 0.5.
pub open spec fn preset_smooth() -> SceneDescriptor {
    SceneDescriptor {
        secondary: preset_secondary(BITS_0_6, BITS_0_3),
        settings: GlobalRenderSettings {
            intersection_smooth_amount: BITS_HALF,
            ..default_settings()
        },
        ..default_scene()
    }
}

/// The "NotIntersection" preset: the metallic secondary cube spins at rate
/// 0.5 and is subtracted from the primary.
pub open spec fn preset_not_intersection() -> SceneDescriptor {
    SceneDescriptor {
        secondary: preset_secondary(BITS_0_6, BITS_HALF),
        settings: GlobalRenderSettings {
            intersection_method: IntersectionMethod::Not,
            ..default_settings()
        },
        ..default_scene()
    }
}

/// The "Mandelbulb" preset: the primary becomes a power-1.85 mandelbulb at
/// (0, 0.8, 0), tilted by 0.8 radians, and the secondary sphere's radius
/// drops to zero.
pub open spec fn preset_mandelbulb() -> SceneDescriptor {
    SceneDescriptor {
        primary: PrimitiveDescriptor {
            world_position: Vec3Bits { x: BITS_ZERO, y: BITS_0_8, z: BITS_ZERO },
            rotation: Vec3Bits { x: BITS_0_8, y: BITS_ZERO, z: BITS_ZERO },
            shape: Shape::Mandelbulb { power: BITS_1_85, scale: BITS_DEFAULT_SCALE },
            ..default_primitive()
        },
        secondary: PrimitiveDescriptor {
            shape: Shape::Sphere { radius: BITS_ZERO, scale: BITS_DEFAULT_SCALE },
            ..default_primitive()
        },
        ..default_scene()
    }
}

/// The scene a preset produces.
pub open spec fn preset_scene(p: Preset) -> SceneDescriptor {
    match p {
        Preset::Default => preset_default(),
        Preset::Smooth => preset_smooth(),
        Preset::NotIntersection => preset_not_intersection(),
        Preset::Mandelbulb => preset_mandelbulb(),
    }
}

/// Every preset yields a fully-populated, internally consistent scene: the
/// ray-march loop bounds satisfy their invariant and both primitives carry a
/// shape code inside the shader's enumeration.
pub proof fn lemma_preset_complete(p: Preset)
    ensures
        settings_well_formed(preset_scene(p).settings),
        1 <= shape_code(preset_scene(p).primary.shape) <= 4,
        1 <= shape_code(preset_scene(p).secondary.shape) <= 4,
{
}

/// Loading a preset is deterministic, so loading the same preset twice
/// yields identical descriptors.
pub proof fn lemma_preset_idempotent(p: Preset, first: SceneDescriptor, second: SceneDescriptor)
    requires
        first == preset_scene(p),
        second == preset_scene(p),
    ensures
        first == second,
{
}

impl SceneDescriptor {
    /// Builds the scene a preset names. Presets are pure constructors: the
    /// result depends on the preset alone.
    pub fn load_preset(p: Preset) -> (r: Self)
        ensures
            r == preset_scene(p),
    {
        match p {
            Preset::Default => Self::basic_config(),
            Preset::Smooth => Self::smooth_config(),
            Preset::NotIntersection => Self::not_intersection_config(),
            Preset::Mandelbulb => Self::mandelbulb_config(),
        }
    }

    /// Replaces the whole scene with a preset in one assignment, so a
    /// consumer never observes a half-applied preset.
    pub fn apply_preset(&mut self, p: Preset)
        ensures
            *final(self) == preset_scene(p),
    {
        *self = Self::load_preset(p);
    }

    /// The "Default" preset configuration.
    pub fn basic_config() -> (r: Self)
        ensures
            r == preset_default(),
    {
        let mut out = Self::default();
        out.secondary.world_position = Vec3Bits {
            x: BITS_NEG_HALF,
            y: BITS_0_75,
            z: BITS_DEFAULT_SCALE,
        };
        out.secondary.base_color = Vec4Bits {
            x: BITS_ZERO,
            y: BITS_ONE,
            z: BITS_ZERO,
            w: BITS_ONE,
        };
        out.secondary.rotation_amount = BITS_HALF;
        out.secondary.set_shape_kind(ShapeKind::Cube);
        out
    }

    /// The "Smooth" preset configuration.
    pub fn smooth_config() -> (r: Self)
        ensures
            r == preset_smooth(),
    {
        let mut out = Self::basic_config();
        out.secondary.metallic = BITS_0_6;
        out.secondary.rotation_amount = BITS_0_3;
        out.settings.intersection_smooth_amount = BITS_HALF;
        out
    }

    /// The "NotIntersection" preset configuration.
    pub fn not_intersection_config() -> (r: Self)
        ensures
            r == preset_not_intersection(),
    {
        let mut out = Self::basic_config();
        out.secondary.metallic = BITS_0_6;
        out.secondary.rotation_amount = BITS_HALF;
        out.settings.intersection_method = IntersectionMethod::Not;
        out
    }

    /// The "Mandelbulb" preset configuration.
    pub fn mandelbulb_config() -> (r: Self)
        ensures
            r == preset_mandelbulb(),
    {
        let mut out = Self::default();
        out.primary.world_position = Vec3Bits { x: BITS_ZERO, y: BITS_0_8, z: BITS_ZERO };
        out.primary.rotation = Vec3Bits { x: BITS_0_8, y: BITS_ZERO, z: BITS_ZERO };
        out.primary.shape = Shape::Mandelbulb {
            power: BITS_1_85,
            scale: BITS_DEFAULT_SCALE,
        };
        out.secondary.shape = Shape::Sphere {
            radius: BITS_ZERO,
            scale: BITS_DEFAULT_SCALE,
        };
        out
    }

    /// Refreshes the elapsed time the shader animates with, leaving every
    /// other field untouched.
    pub fn set_time(&mut self, time_bits: u32)
        ensures
            *final(self) == (SceneDescriptor {
                settings: GlobalRenderSettings { time: time_bits, ..old(self).settings },
                ..*old(self)
            }),
    {
        self.settings.time = time_bits;
    }
}

} // verus!
