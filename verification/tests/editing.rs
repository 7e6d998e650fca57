//! The editing facade: range clamping, shape switching, and the per-frame
//! synchronization that makes an edit visible on the very next sync.

use raymarch_scene::camera::OrbitCamera;
use raymarch_scene::fbits::clamp_bits;
use raymarch_scene::fbits::Vec3Bits;
use raymarch_scene::fbits::Vec4Bits;
use raymarch_scene::layout::WORD_GLOBAL_SMOOTH;
use raymarch_scene::layout::WORD_GLOBAL_TIME;
use raymarch_scene::layout::WORD_PRIMARY_ROUGHNESS;
use raymarch_scene::primitive::PrimitiveDescriptor;
use raymarch_scene::primitive::Shape;
use raymarch_scene::primitive::ShapeKind;
use raymarch_scene::scene::SceneDescriptor;
use raymarch_scene::settings::GlobalRenderSettings;
use raymarch_scene::settings::IntersectionMethod;
use raymarch_scene::sync::sync_frame;
use raymarch_scene::sync::tick;
use raymarch_scene::sync::GpuBuffer;

#[test]
fn roughness_clamps_up_from_negative_five() {
    let mut p = PrimitiveDescriptor::default();
    p.set_perceptual_roughness((-5.0f32).to_bits());
    assert_eq!(p.perceptual_roughness, 0.0f32.to_bits());
}

#[test]
fn smooth_amount_clamps_down_from_two() {
    let mut g = GlobalRenderSettings::default();
    g.set_intersection_smooth_amount(2.0f32.to_bits());
    assert_eq!(g.intersection_smooth_amount, 1.0f32.to_bits());
}

#[test]
fn in_range_values_pass_through_unchanged() {
    let mut p = PrimitiveDescriptor::default();
    p.set_perceptual_roughness(0.25f32.to_bits());
    assert_eq!(p.perceptual_roughness, 0.25f32.to_bits());
    p.set_position_x((-0.75f32).to_bits());
    assert_eq!(p.world_position.x, (-0.75f32).to_bits());
    let mut g = GlobalRenderSettings::default();
    g.set_far_clip(12.5f32.to_bits());
    assert_eq!(g.far_clip, 12.5f32.to_bits());
}

#[test]
fn clamp_bits_agrees_with_float_clamp_on_samples() {
    let samples = [-7.5f32, -1.0, -0.0, 0.0, 0.001, 0.4, 0.999, 1.0, 1.0001, 42.0];
    for v in samples {
        let clamped = f32::from_bits(clamp_bits(v.to_bits(), 0.0f32.to_bits(), 1.0f32.to_bits()));
        assert_eq!(clamped, v.clamp(0.0, 1.0));
    }
}

#[test]
fn rotation_clamps_to_pi() {
    let mut p = PrimitiveDescriptor::default();
    p.set_rotation_x(4.0f32.to_bits());
    assert_eq!(p.rotation.x, std::f32::consts::PI.to_bits());
    p.set_rotation_x((-4.0f32).to_bits());
    assert_eq!(p.rotation.x, (-std::f32::consts::PI).to_bits());
}

#[test]
fn termination_distance_keeps_its_floor() {
    let mut g = GlobalRenderSettings::default();
    g.set_termination_distance(0.0f32.to_bits());
    assert_eq!(g.termination_distance, 0.0001f32.to_bits());
    g.set_termination_distance(0.75f32.to_bits());
    assert_eq!(g.termination_distance, 0.5f32.to_bits());
}

#[test]
fn far_clip_clamps_to_twenty() {
    let mut g = GlobalRenderSettings::default();
    g.set_far_clip(25.0f32.to_bits());
    assert_eq!(g.far_clip, 20.0f32.to_bits());
}

#[test]
fn loop_bounds_stay_consistent_under_edits() {
    // Driving both sliders against each other must never leave the far clip
    // at or below the termination distance.
    let mut g = GlobalRenderSettings::default();
    g.set_far_clip(0.0f32.to_bits());
    // The far clip stops just above the current termination distance
    // (the next representable value up), not at zero.
    assert_eq!(g.far_clip, 0.001f32.to_bits() + 1);
    assert!(f32::from_bits(g.far_clip) > f32::from_bits(g.termination_distance));

    g.set_termination_distance(0.5f32.to_bits());
    // The termination distance stops just below the current far clip.
    assert_eq!(g.termination_distance, 0.001f32.to_bits());
    assert!(f32::from_bits(g.termination_distance) > 0.0);
    assert!(f32::from_bits(g.far_clip) > f32::from_bits(g.termination_distance));
}

#[test]
fn far_clip_edit_respects_a_raised_termination_distance() {
    let mut g = GlobalRenderSettings::default();
    g.set_termination_distance(0.4f32.to_bits());
    assert_eq!(g.termination_distance, 0.4f32.to_bits());
    g.set_far_clip(0.2f32.to_bits());
    assert_eq!(g.far_clip, 0.4f32.to_bits() + 1);
    assert!(f32::from_bits(g.far_clip) > f32::from_bits(g.termination_distance));
}

#[test]
fn color_channels_clamp_to_unit_range() {
    let mut p = PrimitiveDescriptor::default();
    p.set_base_color(Vec4Bits {
        x: 2.0f32.to_bits(),
        y: (-1.0f32).to_bits(),
        z: 0.5f32.to_bits(),
        w: 1.0f32.to_bits(),
    });
    assert_eq!(p.base_color.x, 1.0f32.to_bits());
    assert_eq!(p.base_color.y, 0.0f32.to_bits());
    assert_eq!(p.base_color.z, 0.5f32.to_bits());
    assert_eq!(p.base_color.w, 1.0f32.to_bits());
}

#[test]
fn camera_parameters_clamp_to_their_ranges() {
    let mut c = OrbitCamera::default();
    c.set_speed((-1.0f32).to_bits());
    assert_eq!(c.speed, 0.0f32.to_bits());
    c.set_distance(11.0f32.to_bits());
    assert_eq!(c.distance, 10.0f32.to_bits());
    c.set_height(10.5f32.to_bits());
    assert_eq!(c.height, 10.0f32.to_bits());
    c.set_sway_amount(0.3f32.to_bits());
    assert_eq!(c.sway_amount, 0.3f32.to_bits());
    c.set_look_at(Vec3Bits { x: 1.0f32.to_bits(), y: 2.0f32.to_bits(), z: 3.0f32.to_bits() });
    assert_eq!(c.look_at.y, 2.0f32.to_bits());
}

#[test]
fn shape_kind_switch_keeps_parameter_slots() {
    let mut p = PrimitiveDescriptor::default();
    assert_eq!(p.shape_kind(), ShapeKind::Sphere);
    p.set_shape_kind(ShapeKind::Cube);
    assert_eq!(p.shape_kind(), ShapeKind::Cube);
    assert_eq!(p.shape, Shape::Cube { side: 1.0f32.to_bits(), scale: 0.4f32.to_bits() });
    p.set_shape_kind(ShapeKind::Cone);
    assert_eq!(p.shape, Shape::Cone { height: 1.0f32.to_bits(), radius: 0.4f32.to_bits() });
    p.set_shape_kind(ShapeKind::Mandelbulb);
    assert_eq!(p.shape, Shape::Mandelbulb { power: 1.0f32.to_bits(), scale: 0.4f32.to_bits() });
    p.set_shape_kind(ShapeKind::Sphere);
    assert_eq!(p.shape, PrimitiveDescriptor::default().shape);
}

#[test]
fn edit_is_visible_on_the_very_next_sync() {
    let mut scene = SceneDescriptor::default();
    let mut slot = Some(GpuBuffer { words: Vec::new() });
    sync_frame(&scene, &mut slot);
    assert_eq!(slot.as_ref().unwrap().words[WORD_PRIMARY_ROUGHNESS], 1.0f32.to_bits());

    scene.primary.set_perceptual_roughness(0.25f32.to_bits());
    sync_frame(&scene, &mut slot);
    assert_eq!(slot.as_ref().unwrap().words[WORD_PRIMARY_ROUGHNESS], 0.25f32.to_bits());

    scene.settings.set_intersection_smooth_amount(0.75f32.to_bits());
    sync_frame(&scene, &mut slot);
    assert_eq!(slot.as_ref().unwrap().words[WORD_GLOBAL_SMOOTH], 0.75f32.to_bits());
    assert_eq!(slot.as_ref().unwrap().words[WORD_PRIMARY_ROUGHNESS], 0.25f32.to_bits());
}

#[test]
fn sync_with_missing_handle_skips_the_frame() {
    let mut scene = SceneDescriptor::default();
    let mut slot: Option<GpuBuffer> = None;
    tick(&mut scene, 1.5f32.to_bits(), &mut slot);
    assert!(slot.is_none());
    // The frame is skipped, not failed: the scene still advanced its time.
    assert_eq!(scene.settings.time, 1.5f32.to_bits());
}

#[test]
fn tick_refreshes_time_in_scene_and_buffer() {
    let mut scene = SceneDescriptor::default();
    let mut slot = Some(GpuBuffer { words: Vec::new() });
    tick(&mut scene, 2.0f32.to_bits(), &mut slot);
    assert_eq!(scene.settings.time, 2.0f32.to_bits());
    assert_eq!(slot.as_ref().unwrap().words[WORD_GLOBAL_TIME], 2.0f32.to_bits());
    tick(&mut scene, 2.5f32.to_bits(), &mut slot);
    assert_eq!(slot.as_ref().unwrap().words[WORD_GLOBAL_TIME], 2.5f32.to_bits());
}

#[test]
fn synchronizing_the_default_scene_at_time_zero() {
    let mut scene = SceneDescriptor::default();
    let mut slot = Some(GpuBuffer { words: Vec::new() });
    tick(&mut scene, 0.0f32.to_bits(), &mut slot);
    let words = &slot.as_ref().unwrap().words;
    assert_eq!(words[WORD_GLOBAL_TIME], 0.0f32.to_bits());
    assert_eq!(words[76], 0); // boolean or
    assert_eq!(words[8], 1); // primary sphere
    assert_eq!(words[38 + 8], 1); // secondary sphere
    assert_eq!(words[76 + 7], 10.0f32.to_bits());
    assert_eq!(words[76 + 8], 0.001f32.to_bits());
}

#[test]
fn intersection_method_switches_exactly() {
    let mut g = GlobalRenderSettings::default();
    g.set_intersection_method(IntersectionMethod::And);
    assert_eq!(g.intersection_method, IntersectionMethod::And);
    g.set_intersection_method(IntersectionMethod::Not);
    assert_eq!(g.intersection_method, IntersectionMethod::Not);
}
