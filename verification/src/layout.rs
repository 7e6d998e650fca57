//! The uniform-buffer layout: the exact word order the shader declares, the
//! encoding of a scene into it, and the inverse reading.
//!
//! Field order and scalar width are a cross-language contract with the
//! shader: every field occupies one 32-bit word, in the order fixed here,
//! and the two sides must never reorder independently.

use vstd::prelude::*;

use crate::fbits::Vec2Bits;
use crate::fbits::Vec3Bits;
use crate::fbits::Vec4Bits;
use crate::primitive::kind_of;
use crate::primitive::shape_code;
use crate::primitive::shape_scale;
use crate::primitive::shape_var;
use crate::primitive::shape_with_kind;
use crate::primitive::PrimitiveDescriptor;
use crate::primitive::Shape;
use crate::primitive::ShapeKind;
use crate::scene::SceneDescriptor;
use crate::settings::method_code;
use crate::settings::method_of_code;
use crate::settings::GlobalRenderSettings;

verus! {

/// Words in one primitive block.
pub const PRIMITIVE_WORDS: usize = 38;

/// Words in the global settings block.
pub const GLOBAL_WORDS: usize = 10;

/// Words in the whole scene buffer: two primitive blocks and the global one.
pub const SCENE_WORDS: usize = 86;

/// Offset of the primary primitive's perceptual roughness word.
pub const WORD_PRIMARY_ROUGHNESS: usize = 22;

/// Offset of the smoothing blend factor in the scene buffer.
pub const WORD_GLOBAL_SMOOTH: usize = 77;

/// Offset of the elapsed-time word in the scene buffer.
pub const WORD_GLOBAL_TIME: usize = 85;

/// One primitive block, word by word, in the shader's declared order.
pub open spec fn primitive_words(p: PrimitiveDescriptor) -> Seq<u32> {
    seq![
        p.world_position.x,
        p.world_position.y,
        p.world_position.z,
        p.rotation.x,
        p.rotation.y,
        p.rotation.z,
        p.move_amount,
        p.rotation_amount,
        shape_code(p.shape),
        shape_var(p.shape),
        shape_scale(p.shape),
        p.base_color.x,
        p.base_color.y,
        p.base_color.z,
        p.base_color.w,
        p.emissive.x,
        p.emissive.y,
        p.emissive.z,
        p.emissive.w,
        p.reflectance.x,
        p.reflectance.y,
        p.reflectance.z,
        p.perceptual_roughness,
        p.metallic,
        p.diffuse_transmission,
        p.specular_transmission,
        p.thickness,
        p.ior,
        p.attenuation_distance,
        p.attenuation_color.x,
        p.attenuation_color.y,
        p.attenuation_color.z,
        p.attenuation_color.w,
        p.clearcoat,
        p.clearcoat_perceptual_roughness,
        p.anisotropy_strength,
        p.anisotropy_rotation.x,
        p.anisotropy_rotation.y,
    ]
}

/// The global settings block, word by word, in the shader's declared order.
pub open spec fn settings_words(s: GlobalRenderSettings) -> Seq<u32> {
    seq![
        method_code(s.intersection_method),
        s.intersection_smooth_amount,
        s.glow_range,
        s.glow_color.x,
        s.glow_color.y,
        s.glow_color.z,
        s.glow_color.w,
        s.far_clip,
        s.termination_distance,
        s.time,
    ]
}

/// The whole scene buffer: primary block, secondary block, global block.
pub open spec fn scene_words(s: SceneDescriptor) -> Seq<u32> {
    primitive_words(s.primary) + primitive_words(s.secondary) + settings_words(s.settings)
}

/// The scene buffer always holds exactly `SCENE_WORDS` words.
pub proof fn lemma_scene_words_len(s: SceneDescriptor)
    ensures
        scene_words(s).len() == SCENE_WORDS,
{
}

/// The shape rebuilt from its flattened numeric form; `None` on a code
/// outside the shader's enumeration.
pub open spec fn shape_of_parts(code: u32, var: u32, scale: u32) -> Option<Shape> {
    if code == 1 {
        Some(shape_with_kind(ShapeKind::Sphere, var, scale))
    } else if code == 2 {
        Some(shape_with_kind(ShapeKind::Cube, var, scale))
    } else if code == 3 {
        Some(shape_with_kind(ShapeKind::Cone, var, scale))
    } else if code == 4 {
        Some(shape_with_kind(ShapeKind::Mandelbulb, var, scale))
    } else {
        None
    }
}

/// Flattening a shape and rebuilding it is the identity.
pub proof fn lemma_shape_of_parts_inverse(s: Shape)
    ensures
        shape_of_parts(shape_code(s), shape_var(s), shape_scale(s)) == Some(s),
{
}

/// The primitive a 38-word block describes; `None` on an invalid shape code.
pub open spec fn primitive_of_words(ws: Seq<u32>) -> Option<PrimitiveDescriptor>
    recommends
        ws.len() == PRIMITIVE_WORDS,
{
    match shape_of_parts(ws[8], ws[9], ws[10]) {
        Some(shape) => Some(
            PrimitiveDescriptor {
                world_position: Vec3Bits { x: ws[0], y: ws[1], z: ws[2] },
                rotation: Vec3Bits { x: ws[3], y: ws[4], z: ws[5] },
                move_amount: ws[6],
                rotation_amount: ws[7],
                shape: shape,
                base_color: Vec4Bits { x: ws[11], y: ws[12], z: ws[13], w: ws[14] },
                emissive: Vec4Bits { x: ws[15], y: ws[16], z: ws[17], w: ws[18] },
                reflectance: Vec3Bits { x: ws[19], y: ws[20], z: ws[21] },
                perceptual_roughness: ws[22],
                metallic: ws[23],
                diffuse_transmission: ws[24],
                specular_transmission: ws[25],
                thickness: ws[26],
                ior: ws[27],
                attenuation_distance: ws[28],
                attenuation_color: Vec4Bits { x: ws[29], y: ws[30], z: ws[31], w: ws[32] },
                clearcoat: ws[33],
                clearcoat_perceptual_roughness: ws[34],
                anisotropy_strength: ws[35],
                anisotropy_rotation: Vec2Bits { x: ws[36], y: ws[37] },
            },
        ),
        None => None,
    }
}

/// The settings a 10-word block describes; `None` on an invalid method code.
pub open spec fn settings_of_words(ws: Seq<u32>) -> Option<GlobalRenderSettings>
    recommends
        ws.len() == GLOBAL_WORDS,
{
    match method_of_code(ws[0]) {
        Some(method) => Some(
            GlobalRenderSettings {
                intersection_method: method,
                intersection_smooth_amount: ws[1],
                glow_range: ws[2],
                glow_color: Vec4Bits { x: ws[3], y: ws[4], z: ws[5], w: ws[6] },
                far_clip: ws[7],
                termination_distance: ws[8],
                time: ws[9],
            },
        ),
        None => None,
    }
}

/// The scene an 86-word buffer describes; `None` when the length is wrong or
/// a shape or method code lies outside its enumeration.
pub open spec fn scene_of_words(ws: Seq<u32>) -> Option<SceneDescriptor> {
    if ws.len() != SCENE_WORDS {
        None
    } else {
        match (
            primitive_of_words(ws.subrange(0, 38)),
            primitive_of_words(ws.subrange(38, 76)),
            settings_of_words(ws.subrange(76, 86)),
        ) {
            (Some(primary), Some(secondary), Some(settings)) => Some(
                SceneDescriptor { primary, secondary, settings },
            ),
            _ => None,
        }
    }
}

/// Reading back an encoded primitive block reproduces the primitive exactly.
pub proof fn lemma_primitive_round_trip(p: PrimitiveDescriptor)
    ensures
        primitive_of_words(primitive_words(p)) == Some(p),
{
    lemma_shape_of_parts_inverse(p.shape);
}

/// Reading back an encoded settings block reproduces the settings exactly.
pub proof fn lemma_settings_round_trip(s: GlobalRenderSettings)
    ensures
        settings_of_words(settings_words(s)) == Some(s),
{
    crate::settings::lemma_method_code_inverse(s.intersection_method);
}

/// Round trip of the whole scene through the buffer layout: encoding a scene
/// and reading the words back reproduces every field bit-for-bit.
pub proof fn lemma_scene_round_trip(s: SceneDescriptor)
    ensures
        scene_of_words(scene_words(s)) == Some(s),
{
    let ws = scene_words(s);
    assert(ws.subrange(0, 38) =~= primitive_words(s.primary));
    assert(ws.subrange(38, 76) =~= primitive_words(s.secondary));
    assert(ws.subrange(76, 86) =~= settings_words(s.settings));
    lemma_primitive_round_trip(s.primary);
    lemma_primitive_round_trip(s.secondary);
    lemma_settings_round_trip(s.settings);
}

/// Appends one primitive block to the buffer being built.
fn push_primitive(out: &mut Vec<u32>, p: &PrimitiveDescriptor)
    ensures
        final(out)@ == old(out)@ + primitive_words(*p),
{
    let (code, var, scale): (u32, u32, u32) = match p.shape {
        Shape::Sphere { radius, scale } => (1, radius, scale),
        Shape::Cube { side, scale } => (2, side, scale),
        Shape::Cone { height, radius } => (3, height, radius),
        Shape::Mandelbulb { power, scale } => (4, power, scale),
    };
    out.push(p.world_position.x);
    out.push(p.world_position.y);
    out.push(p.world_position.z);
    out.push(p.rotation.x);
    out.push(p.rotation.y);
    out.push(p.rotation.z);
    out.push(p.move_amount);
    out.push(p.rotation_amount);
    out.push(code);
    out.push(var);
    out.push(scale);
    out.push(p.base_color.x);
    out.push(p.base_color.y);
    out.push(p.base_color.z);
    out.push(p.base_color.w);
    out.push(p.emissive.x);
    out.push(p.emissive.y);
    out.push(p.emissive.z);
    out.push(p.emissive.w);
    out.push(p.reflectance.x);
    out.push(p.reflectance.y);
    out.push(p.reflectance.z);
    out.push(p.perceptual_roughness);
    out.push(p.metallic);
    out.push(p.diffuse_transmission);
    out.push(p.specular_transmission);
    out.push(p.thickness);
    out.push(p.ior);
    out.push(p.attenuation_distance);
    out.push(p.attenuation_color.x);
    out.push(p.attenuation_color.y);
    out.push(p.attenuation_color.z);
    out.push(p.attenuation_color.w);
    out.push(p.clearcoat);
    out.push(p.clearcoat_perceptual_roughness);
    out.push(p.anisotropy_strength);
    out.push(p.anisotropy_rotation.x);
    out.push(p.anisotropy_rotation.y);
    assert(final(out)@ =~= old(out)@ + primitive_words(*p));
}

/// Appends the global settings block to the buffer being built.
fn push_settings(out: &mut Vec<u32>, s: &GlobalRenderSettings)
    ensures
        final(out)@ == old(out)@ + settings_words(*s),
{
    let code: u32 = match s.intersection_method {
        crate::settings::IntersectionMethod::Or => 0,
        crate::settings::IntersectionMethod::And => 1,
        crate::settings::IntersectionMethod::Not => 2,
    };
    out.push(code);
    out.push(s.intersection_smooth_amount);
    out.push(s.glow_range);
    out.push(s.glow_color.x);
    out.push(s.glow_color.y);
    out.push(s.glow_color.z);
    out.push(s.glow_color.w);
    out.push(s.far_clip);
    out.push(s.termination_distance);
    out.push(s.time);
    assert(final(out)@ =~= old(out)@ + settings_words(*s));
}

/// Encodes a scene into the buffer's word layout.
pub fn encode_scene(s: &SceneDescriptor) -> (out: Vec<u32>)
    ensures
        out@ == scene_words(*s),
{
    let mut out: Vec<u32> = Vec::new();
    push_primitive(&mut out, &s.primary);
    push_primitive(&mut out, &s.secondary);
    push_settings(&mut out, &s.settings);
    assert(out@ =~= scene_words(*s));
    out
}

/// Reads one primitive block starting at `at`.
fn decode_primitive_at(ws: &Vec<u32>, at: usize) -> (r: Option<PrimitiveDescriptor>)
    requires
        at + PRIMITIVE_WORDS <= ws@.len(),
    ensures
        r == primitive_of_words(ws@.subrange(at as int, at + PRIMITIVE_WORDS)),
{
    let n = ws.len();
    assert(at + PRIMITIVE_WORDS <= n);
    let code = ws[at + 8];
    let var = ws[at + 9];
    let scale = ws[at + 10];
    let shape: Shape = if code == 1 {
        Shape::Sphere { radius: var, scale }
    } else if code == 2 {
        Shape::Cube { side: var, scale }
    } else if code == 3 {
        Shape::Cone { height: var, radius: scale }
    } else if code == 4 {
        Shape::Mandelbulb { power: var, scale }
    } else {
        return None;
    };
    Some(
        PrimitiveDescriptor {
            world_position: Vec3Bits { x: ws[at], y: ws[at + 1], z: ws[at + 2] },
            rotation: Vec3Bits { x: ws[at + 3], y: ws[at + 4], z: ws[at + 5] },
            move_amount: ws[at + 6],
            rotation_amount: ws[at + 7],
            shape,
            base_color: Vec4Bits {
                x: ws[at + 11],
                y: ws[at + 12],
                z: ws[at + 13],
                w: ws[at + 14],
            },
            emissive: Vec4Bits { x: ws[at + 15], y: ws[at + 16], z: ws[at + 17], w: ws[at + 18] },
            reflectance: Vec3Bits { x: ws[at + 19], y: ws[at + 20], z: ws[at + 21] },
            perceptual_roughness: ws[at + 22],
            metallic: ws[at + 23],
            diffuse_transmission: ws[at + 24],
            specular_transmission: ws[at + 25],
            thickness: ws[at + 26],
            ior: ws[at + 27],
            attenuation_distance: ws[at + 28],
            attenuation_color: Vec4Bits {
                x: ws[at + 29],
                y: ws[at + 30],
                z: ws[at + 31],
                w: ws[at + 32],
            },
            clearcoat: ws[at + 33],
            clearcoat_perceptual_roughness: ws[at + 34],
            anisotropy_strength: ws[at + 35],
            anisotropy_rotation: Vec2Bits { x: ws[at + 36], y: ws[at + 37] },
        },
    )
}

/// Reads the global settings block starting at `at`.
fn decode_settings_at(ws: &Vec<u32>, at: usize) -> (r: Option<GlobalRenderSettings>)
    requires
        at + GLOBAL_WORDS <= ws@.len(),
    ensures
        r == settings_of_words(ws@.subrange(at as int, at + GLOBAL_WORDS)),
{
    let n = ws.len();
    assert(at + GLOBAL_WORDS <= n);
    let code = ws[at];
    let method: crate::settings::IntersectionMethod = if code == 0 {
        crate::settings::IntersectionMethod::Or
    } else if code == 1 {
        crate::settings::IntersectionMethod::And
    } else if code == 2 {
        crate::settings::IntersectionMethod::Not
    } else {
        return None;
    };
    Some(
        GlobalRenderSettings {
            intersection_method: method,
            intersection_smooth_amount: ws[at + 1],
            glow_range: ws[at + 2],
            glow_color: Vec4Bits { x: ws[at + 3], y: ws[at + 4], z: ws[at + 5], w: ws[at + 6] },
            far_clip: ws[at + 7],
            termination_distance: ws[at + 8],
            time: ws[at + 9],
        },
    )
}

/// Reads a scene back out of a word buffer; `None` when the buffer cannot
/// describe one.
pub fn decode_scene(ws: &Vec<u32>) -> (r: Option<SceneDescriptor>)
    ensures
        r == scene_of_words(ws@),
{
    if ws.len() != SCENE_WORDS {
        return None;
    }
    let primary = decode_primitive_at(ws, 0);
    let secondary = decode_primitive_at(ws, 38);
    let settings = decode_settings_at(ws, 76);
    match (primary, secondary, settings) {
        (Some(primary), Some(secondary), Some(settings)) => Some(
            SceneDescriptor { primary, secondary, settings },
        ),
        _ => None,
    }
}

} // verus!
