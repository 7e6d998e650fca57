//! One SDF primitive: placement, animation coefficients, shape, and surface
//! material. All scalars are 32-bit IEEE 754 bit patterns (see `fbits`).

use vstd::prelude::*;

use crate::fbits::Vec2Bits;
use crate::fbits::Vec3Bits;
use crate::fbits::Vec4Bits;
use crate::fbits::BITS_HALF;
use crate::fbits::BITS_ONE;
use crate::fbits::BITS_ZERO;

verus! {

/// Bit pattern of 0.4, the default shape scale.
pub const BITS_DEFAULT_SCALE: u32 = 0x3ECC_CCCD;
/// Bit pattern of 1.5, the default index of refraction.
pub const BITS_DEFAULT_IOR: u32 = 0x3FC0_0000;

/// The shape of a primitive, with its two shader-visible parameters.
///
/// The uniform buffer flattens this into a numeric kind plus two scalar
/// slots; the slot meaning is shape-dependent, as named here.
#[derive(Clone, Copy, PartialEq, Eq, Structural, Debug)]
pub enum Shape {
    Sphere { radius: u32, scale: u32 },
    Cube { side: u32, scale: u32 },
    Cone { height: u32, radius: u32 },
    Mandelbulb { power: u32, scale: u32 },
}

/// The shape's tag alone, as the editing surface selects it.
#[derive(Clone, Copy, PartialEq, Eq, Structural, Debug)]
pub enum ShapeKind {
    Sphere,
    Cube,
    Cone,
    Mandelbulb,
}

/// Numeric shape encoding of the shader contract: 1 = sphere, 2 = cube,
/// 3 = cone, 4 = mandelbulb. No other value may ever be emitted.
pub open spec fn shape_code(s: Shape) -> u32 {
    match s {
        Shape::Sphere { .. } => 1u32,
        Shape::Cube { .. } => 2u32,
        Shape::Cone { .. } => 3u32,
        Shape::Mandelbulb { .. } => 4u32,
    }
}

/// First shader-visible shape parameter (radius, side, height, or power).
pub open spec fn shape_var(s: Shape) -> u32 {
    match s {
        Shape::Sphere { radius, .. } => radius,
        Shape::Cube { side, .. } => side,
        Shape::Cone { height, .. } => height,
        Shape::Mandelbulb { power, .. } => power,
    }
}

/// Second shader-visible shape parameter (scale, or the cone's radius).
pub open spec fn shape_scale(s: Shape) -> u32 {
    match s {
        Shape::Sphere { scale, .. } => scale,
        Shape::Cube { scale, .. } => scale,
        Shape::Cone { radius, .. } => radius,
        Shape::Mandelbulb { scale, .. } => scale,
    }
}

/// The emitted shape code always lies in the shader's enumeration.
pub proof fn lemma_shape_code_in_range(s: Shape)
    ensures
        1 <= shape_code(s) <= 4,
{
}

/// The shape rebuilt from its flattened form: the kind selects the variant,
/// the two slots keep their values. This is what a kind switch on the editing
/// surface does, and what decoding a buffer does for a valid code.
pub open spec fn shape_with_kind(k: ShapeKind, var: u32, scale: u32) -> Shape {
    match k {
        ShapeKind::Sphere => Shape::Sphere { radius: var, scale: scale },
        ShapeKind::Cube => Shape::Cube { side: var, scale: scale },
        ShapeKind::Cone => Shape::Cone { height: var, radius: scale },
        ShapeKind::Mandelbulb => Shape::Mandelbulb { power: var, scale: scale },
    }
}

/// The tag of a shape.
pub open spec fn kind_of(s: Shape) -> ShapeKind {
    match s {
        Shape::Sphere { .. } => ShapeKind::Sphere,
        Shape::Cube { .. } => ShapeKind::Cube,
        Shape::Cone { .. } => ShapeKind::Cone,
        Shape::Mandelbulb { .. } => ShapeKind::Mandelbulb,
    }
}

/// One primitive of the scene. Field meaning and order follow the shader's
/// own declaration; material scalars are stored and forwarded unchanged.
#[derive(Clone, Copy, PartialEq, Eq, Structural, Debug)]
pub struct PrimitiveDescriptor {
    pub world_position: Vec3Bits,
    /// Euler angles in radians, in the ray-marcher's rotation order.
    pub rotation: Vec3Bits,
    /// Animation coefficient: the shader moves the primitive with
    /// `move_amount` and the elapsed time; this crate only forwards it.
    pub move_amount: u32,
    /// Animation coefficient for continuous rotation, forwarded likewise.
    pub rotation_amount: u32,
    pub shape: Shape,
    pub base_color: Vec4Bits,
    pub emissive: Vec4Bits,
    pub reflectance: Vec3Bits,
    pub perceptual_roughness: u32,
    pub metallic: u32,
    pub diffuse_transmission: u32,
    pub specular_transmission: u32,
    pub thickness: u32,
    pub ior: u32,
    pub attenuation_distance: u32,
    pub attenuation_color: Vec4Bits,
    pub clearcoat: u32,
    pub clearcoat_perceptual_roughness: u32,
    pub anisotropy_strength: u32,
    pub anisotropy_rotation: Vec2Bits,
}

/// The documented default primitive: a unit-radius sphere at (0, 0.5, 0)
/// with a fully rough, opaque red material and the standard dielectric
/// index 1.5.
pub open spec fn default_primitive() -> PrimitiveDescriptor {
    PrimitiveDescriptor {
        world_position: Vec3Bits { x: BITS_ZERO, y: BITS_HALF, z: BITS_ZERO },
        rotation: Vec3Bits { x: BITS_ZERO, y: BITS_ZERO, z: BITS_ZERO },
        move_amount: BITS_ZERO,
        rotation_amount: BITS_ZERO,
        shape: Shape::Sphere { radius: BITS_ONE, scale: BITS_DEFAULT_SCALE },
        base_color: Vec4Bits { x: BITS_ONE, y: BITS_ZERO, z: BITS_ZERO, w: BITS_ONE },
        emissive: Vec4Bits { x: BITS_ZERO, y: BITS_ZERO, z: BITS_ZERO, w: BITS_ZERO },
        reflectance: Vec3Bits { x: BITS_HALF, y: BITS_HALF, z: BITS_HALF },
        perceptual_roughness: BITS_ONE,
        metallic: BITS_ZERO,
        diffuse_transmission: BITS_ZERO,
        specular_transmission: BITS_ZERO,
        thickness: BITS_ZERO,
        ior: BITS_DEFAULT_IOR,
        attenuation_distance: BITS_ONE,
        attenuation_color: Vec4Bits { x: BITS_ONE, y: BITS_ONE, z: BITS_ONE, w: BITS_ONE },
        clearcoat: BITS_ZERO,
        clearcoat_perceptual_roughness: BITS_ZERO,
        anisotropy_strength: BITS_ZERO,
        anisotropy_rotation: Vec2Bits { x: BITS_ZERO, y: BITS_ZERO },
    }
}

impl Default for PrimitiveDescriptor {
    /// Constructs the documented default primitive.
    fn default() -> (r: Self)
        ensures
            r == default_primitive(),
    {
        PrimitiveDescriptor {
            world_position: Vec3Bits { x: BITS_ZERO, y: BITS_HALF, z: BITS_ZERO },
            rotation: Vec3Bits { x: BITS_ZERO, y: BITS_ZERO, z: BITS_ZERO },
            move_amount: BITS_ZERO,
            rotation_amount: BITS_ZERO,
            shape: Shape::Sphere { radius: BITS_ONE, scale: BITS_DEFAULT_SCALE },
            base_color: Vec4Bits { x: BITS_ONE, y: BITS_ZERO, z: BITS_ZERO, w: BITS_ONE },
            emissive: Vec4Bits { x: BITS_ZERO, y: BITS_ZERO, z: BITS_ZERO, w: BITS_ZERO },
            reflectance: Vec3Bits { x: BITS_HALF, y: BITS_HALF, z: BITS_HALF },
            perceptual_roughness: BITS_ONE,
            metallic: BITS_ZERO,
            diffuse_transmission: BITS_ZERO,
            specular_transmission: BITS_ZERO,
            thickness: BITS_ZERO,
            ior: BITS_DEFAULT_IOR,
            attenuation_distance: BITS_ONE,
            attenuation_color: Vec4Bits { x: BITS_ONE, y: BITS_ONE, z: BITS_ONE, w: BITS_ONE },
            clearcoat: BITS_ZERO,
            clearcoat_perceptual_roughness: BITS_ZERO,
            anisotropy_strength: BITS_ZERO,
            anisotropy_rotation: Vec2Bits { x: BITS_ZERO, y: BITS_ZERO },
        }
    }
}

} // verus!
