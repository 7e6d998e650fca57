//! The data model: documented defaults, presets, and the camera parameters.

use raymarch_scene::camera::OrbitCamera;
use raymarch_scene::primitive::PrimitiveDescriptor;
use raymarch_scene::primitive::Shape;
use raymarch_scene::scene::Preset;
use raymarch_scene::scene::SceneDescriptor;
use raymarch_scene::settings::GlobalRenderSettings;
use raymarch_scene::settings::IntersectionMethod;

#[test]
fn default_primitive_matches_documented_values() {
    let p = PrimitiveDescriptor::default();
    assert_eq!(p.world_position.x, 0.0f32.to_bits());
    assert_eq!(p.world_position.y, 0.5f32.to_bits());
    assert_eq!(p.world_position.z, 0.0f32.to_bits());
    assert_eq!(p.rotation.x, 0.0f32.to_bits());
    assert_eq!(p.move_amount, 0.0f32.to_bits());
    assert_eq!(p.rotation_amount, 0.0f32.to_bits());
    assert_eq!(
        p.shape,
        Shape::Sphere { radius: 1.0f32.to_bits(), scale: 0.4f32.to_bits() }
    );
    assert_eq!(p.base_color.x, 1.0f32.to_bits());
    assert_eq!(p.base_color.y, 0.0f32.to_bits());
    assert_eq!(p.base_color.z, 0.0f32.to_bits());
    assert_eq!(p.base_color.w, 1.0f32.to_bits());
    assert_eq!(p.emissive.w, 0.0f32.to_bits());
    assert_eq!(p.reflectance.x, 0.5f32.to_bits());
    assert_eq!(p.perceptual_roughness, 1.0f32.to_bits());
    assert_eq!(p.metallic, 0.0f32.to_bits());
    assert_eq!(p.ior, 1.5f32.to_bits());
    assert_eq!(p.attenuation_distance, 1.0f32.to_bits());
    assert_eq!(p.attenuation_color.w, 1.0f32.to_bits());
    assert_eq!(p.clearcoat, 0.0f32.to_bits());
    assert_eq!(p.anisotropy_rotation.x, 0.0f32.to_bits());
}

#[test]
fn default_settings_match_documented_values() {
    let s = GlobalRenderSettings::default();
    assert_eq!(s.intersection_method, IntersectionMethod::Or);
    assert_eq!(s.intersection_smooth_amount, 0.0f32.to_bits());
    assert_eq!(s.glow_range, 0.0f32.to_bits());
    assert_eq!(s.glow_color.w, 0.0f32.to_bits());
    assert_eq!(s.far_clip, 10.0f32.to_bits());
    assert_eq!(s.termination_distance, 0.001f32.to_bits());
    assert_eq!(s.time, 0.0f32.to_bits());
}

#[test]
fn default_scene_is_two_default_spheres_under_or() {
    let s = SceneDescriptor::default();
    assert_eq!(s.primary, PrimitiveDescriptor::default());
    assert_eq!(s.secondary, PrimitiveDescriptor::default());
    assert!(matches!(s.primary.shape, Shape::Sphere { .. }));
    assert_eq!(s.settings.intersection_method, IntersectionMethod::Or);
}

#[test]
fn default_preset_adds_green_spinning_cube() {
    let s = SceneDescriptor::load_preset(Preset::Default);
    assert_eq!(s.primary, PrimitiveDescriptor::default());
    assert_eq!(s.secondary.world_position.x, (-0.5f32).to_bits());
    assert_eq!(s.secondary.world_position.y, 0.75f32.to_bits());
    assert_eq!(s.secondary.world_position.z, 0.4f32.to_bits());
    assert_eq!(s.secondary.base_color.x, 0.0f32.to_bits());
    assert_eq!(s.secondary.base_color.y, 1.0f32.to_bits());
    assert_eq!(s.secondary.base_color.w, 1.0f32.to_bits());
    assert_eq!(s.secondary.rotation_amount, 0.5f32.to_bits());
    assert_eq!(
        s.secondary.shape,
        Shape::Cube { side: 1.0f32.to_bits(), scale: 0.4f32.to_bits() }
    );
    assert_eq!(s.settings, GlobalRenderSettings::default());
}

#[test]
fn smooth_preset_sets_metallic_and_blend() {
    let s = SceneDescriptor::load_preset(Preset::Smooth);
    assert_eq!(s.primary, PrimitiveDescriptor::default());
    assert_eq!(s.secondary.metallic, 0.6f32.to_bits());
    assert_eq!(s.secondary.rotation_amount, 0.3f32.to_bits());
    assert!(matches!(s.secondary.shape, Shape::Cube { .. }));
    assert_eq!(s.settings.intersection_smooth_amount, 0.5f32.to_bits());
    assert_eq!(s.settings.intersection_method, IntersectionMethod::Or);
}

#[test]
fn not_intersection_preset_sets_cube_and_not() {
    let s = SceneDescriptor::load_preset(Preset::NotIntersection);
    assert!(matches!(s.secondary.shape, Shape::Cube { .. }));
    assert_eq!(s.settings.intersection_method, IntersectionMethod::Not);
    assert_eq!(s.primary, PrimitiveDescriptor::default());
    assert_eq!(s.secondary.metallic, 0.6f32.to_bits());
    assert_eq!(s.secondary.rotation_amount, 0.5f32.to_bits());
}

#[test]
fn mandelbulb_preset_reshapes_primary() {
    let s = SceneDescriptor::load_preset(Preset::Mandelbulb);
    assert_eq!(s.primary.world_position.y, 0.8f32.to_bits());
    assert_eq!(s.primary.rotation.x, 0.8f32.to_bits());
    assert_eq!(
        s.primary.shape,
        Shape::Mandelbulb { power: 1.85f32.to_bits(), scale: 0.4f32.to_bits() }
    );
    assert_eq!(
        s.secondary.shape,
        Shape::Sphere { radius: 0.0f32.to_bits(), scale: 0.4f32.to_bits() }
    );
    assert_eq!(s.settings, GlobalRenderSettings::default());
}

#[test]
fn loading_a_preset_twice_is_identical() {
    let presets = [
        Preset::Default,
        Preset::Smooth,
        Preset::NotIntersection,
        Preset::Mandelbulb,
    ];
    for p in presets {
        let first = SceneDescriptor::load_preset(p);
        let second = SceneDescriptor::load_preset(p);
        assert_eq!(first, second);
    }
}

#[test]
fn every_preset_keeps_marcher_bounds_consistent() {
    let presets = [
        Preset::Default,
        Preset::Smooth,
        Preset::NotIntersection,
        Preset::Mandelbulb,
    ];
    for p in presets {
        let s = SceneDescriptor::load_preset(p);
        let termination = f32::from_bits(s.settings.termination_distance);
        let far_clip = f32::from_bits(s.settings.far_clip);
        assert!(termination > 0.0);
        assert!(far_clip > termination);
    }
}

#[test]
fn apply_preset_swaps_the_whole_scene() {
    let mut s = SceneDescriptor::default();
    s.primary.set_metallic(1.0f32.to_bits());
    s.apply_preset(Preset::Smooth);
    assert_eq!(s, SceneDescriptor::load_preset(Preset::Smooth));
}

#[test]
fn default_camera_matches_documented_values() {
    let c = OrbitCamera::default();
    assert_eq!(c.height, 2.0f32.to_bits());
    assert_eq!(c.distance, 4.0f32.to_bits());
    assert_eq!(c.speed, 0.5f32.to_bits());
    assert_eq!(c.sway_amount, 1.0f32.to_bits());
    assert_eq!(c.look_at.x, 0.0f32.to_bits());
    assert_eq!(c.look_at.y, 0.5f32.to_bits());
    assert_eq!(c.look_at.z, 0.0f32.to_bits());
}

#[test]
fn orbit_pose_at_time_zero_is_height_above_distance() {
    // The documented orbit: x = sin(t * speed) * distance,
    // y = height + sin(t * speed / 0.35) * sway, z = cos(t * speed) * distance.
    let c = OrbitCamera::default();
    let time = 0.0f32;
    let speed = f32::from_bits(c.speed);
    let distance = f32::from_bits(c.distance);
    let height = f32::from_bits(c.height);
    let sway = f32::from_bits(c.sway_amount);
    let x = (time * speed).sin() * distance;
    let y = height + (time * speed / 0.35).sin() * sway;
    let z = (time * speed).cos() * distance;
    assert_eq!(x, 0.0);
    assert_eq!(y, 2.0);
    assert_eq!(z, 4.0);
}
