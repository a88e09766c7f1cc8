use ray_tracer::camera::{Camera, Trig};
use ray_tracer::context::{Context, InputEvent};
use ray_tracer::controller::{Key, ScrollDelta};
use ray_tracer::params::Params;
use ray_tracer::vec3::Vec3Fx;

fn v(x: i64, y: i64, z: i64) -> Vec3Fx {
    Vec3Fx { x, y, z }
}

fn cam() -> Camera {
    Camera::new(
        v(0, 0, 0),
        v(0, 0, -1_000_000),
        v(0, 1_000_000, 0),
        45_000_000,
        1_000_000,
        100_000,
        100_000_000,
        10_000,
        2_000,
    )
}

fn ctx() -> Context {
    Context::new(800, 600, cam())
}

#[test]
fn params_defaults() {
    let p = Params::new(800, 600);
    assert_eq!(p.width, 800);
    assert_eq!(p.height, 600);
    assert_eq!(p.number_of_bounces, 1);
    assert_eq!(p.rays_per_pixel, 1);
    assert_eq!(p.accumulate, 1);
    assert_eq!(p.skybox, 1);
    // startup is the reset-pending state: no history to blend with
    assert_eq!(p.frames, -1);
}

#[test]
fn frame_index_runs_from_minus_one() {
    let mut p = Params::new(640, 480);
    assert_eq!(p.frames, -1);
    p.tick();
    assert_eq!(p.frames, 0);
    p.tick();
    assert_eq!(p.frames, 1);
    p.tick();
    assert_eq!(p.frames, 2);
}

#[test]
fn invalidation_restarts_the_sequence() {
    let mut p = Params::new(640, 480);
    p.tick();
    p.tick();
    p.tick();
    assert_eq!(p.frames, 2);
    p.invalidate();
    assert_eq!(p.frames, -1);
    p.tick();
    assert_eq!(p.frames, 0);
}

#[test]
fn no_accumulation_means_continuous_reset() {
    let mut p = Params::new(640, 480);
    p.accumulate = 0;
    p.tick();
    assert_eq!(p.frames, -1);
    p.tick();
    assert_eq!(p.frames, -1);
}

#[test]
fn new_context_is_synchronized() {
    let c = ctx();
    assert_eq!(c.width, 800);
    assert_eq!(c.height, 600);
    assert_eq!(c.params.width, 800);
    assert_eq!(c.params.height, 600);
    assert_eq!(c.texture_generation, 0);
    assert_eq!(c.compute_binding_generation, 0);
    assert_eq!(c.blit_binding_generation, 0);
    assert!(!c.mouse_pressed);
}

#[test]
fn degenerate_resize_is_a_no_op() {
    let mut c = ctx();
    let before = c;
    c.resize(0, 600);
    assert_eq!(c, before);
    c.resize(800, 0);
    assert_eq!(c, before);
    c.resize(0, 0);
    assert_eq!(c, before);
}

#[test]
fn resize_replaces_texture_and_rebuilds_bindings() {
    let mut c = ctx();
    c.params.frames = 7;
    c.resize(1024, 768);
    assert_eq!(c.width, 1024);
    assert_eq!(c.height, 768);
    assert_eq!(c.params.width, 1024);
    assert_eq!(c.params.height, 768);
    // the accumulated image is stale
    assert_eq!(c.params.frames, -1);
    // a new texture generation, and both binding sets rebuilt for it
    assert_eq!(c.texture_generation, 1);
    assert_eq!(c.compute_binding_generation, c.texture_generation);
    assert_eq!(c.blit_binding_generation, c.texture_generation);
    // the camera sees the new aspect ratio
    assert_eq!(c.camera.aspect, 1_333_333);
}

#[test]
fn dispatch_after_resize_covers_new_texture() {
    let mut c = ctx();
    c.resize(1024, 768);
    // the binding sets name the new texture generation, and the dispatch
    // covers exactly the new size
    assert_eq!(c.compute_binding_generation, c.texture_generation);
    assert_eq!(c.dispatch_workgroups(), (128, 96));
    c.resize(801, 601);
    assert_eq!(c.dispatch_workgroups(), (101, 76));
}

#[test]
fn captured_input_changes_nothing() {
    let mut c = ctx();
    let before = c;
    let moved = c.input(InputEvent::Keyboard(Key::W, true), true);
    assert!(!moved);
    assert_eq!(c, before);
}

#[test]
fn key_input_reaches_controller_and_invalidates() {
    let mut c = ctx();
    c.params.frames = 5;
    let moved = c.input(InputEvent::Keyboard(Key::W, true), false);
    assert!(moved);
    assert_eq!(c.camera.controller.amount_forward, 5_000_000);
    assert_eq!(c.params.frames, -1);
}

#[test]
fn unrecognized_key_does_not_invalidate() {
    let mut c = ctx();
    c.params.frames = 5;
    let moved = c.input(InputEvent::Keyboard(Key::Other, true), false);
    assert!(!moved);
    assert_eq!(c.params.frames, 5);
}

#[test]
fn wheel_input_sets_scroll_and_invalidates() {
    let mut c = ctx();
    c.params.frames = 5;
    let moved = c.input(InputEvent::MouseWheel(ScrollDelta::Lines(1_000_000)), false);
    assert!(moved);
    assert_eq!(c.camera.controller.scroll, -10_000_000_000);
    assert_eq!(c.params.frames, -1);
}

#[test]
fn mouse_button_tracks_look_state() {
    let mut c = ctx();
    let moved = c.input(InputEvent::MouseLeftButton(true), false);
    assert!(moved);
    assert!(c.mouse_pressed);
    c.input(InputEvent::MouseLeftButton(false), false);
    assert!(!c.mouse_pressed);
}

#[test]
fn mouse_motion_rotates_and_invalidates() {
    let mut c = ctx();
    c.params.frames = 9;
    c.process_mouse_delta(1_000_000, 2_000_000);
    assert_eq!(c.camera.controller.rotate_horizontal, 3_000_000);
    assert_eq!(c.camera.controller.rotate_vertical, 6_000_000);
    assert_eq!(c.params.frames, -1);
}

#[test]
fn update_integrates_and_ticks() {
    let mut c = ctx();
    c.input(InputEvent::Keyboard(Key::W, true), false);
    assert_eq!(c.params.frames, -1);
    let level = Trig { yaw_sin: 0, yaw_cos: 1_000_000, pitch_sin: 0, pitch_cos: 1_000_000 };
    c.update(&level);
    assert_eq!(c.camera.origin, v(0, 0, 50_000));
    assert_eq!(c.params.frames, 0);
    c.update(&level);
    assert_eq!(c.camera.origin, v(0, 0, 100_000));
    assert_eq!(c.params.frames, 1);
}

#[test]
fn clear_accumulation_forces_minus_one() {
    let mut c = ctx();
    c.params.frames = 12;
    c.clear_accumulation();
    assert_eq!(c.params.frames, -1);
    assert_eq!(c.width, 800);
}
