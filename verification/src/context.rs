//! The per-frame orchestration state: surface size, parameter block,
//! camera, and the generation counters that keep the render-target texture
//! and the binding sets of the compute and blit pipelines consistent.
//!
//! A "generation" is the (width, height) epoch a resource was built for.
//! Every resize that takes effect bumps the texture generation and rebuilds
//! both binding sets for it, so no binding set ever names a replaced
//! texture. The GPU objects themselves live outside this library; it
//! decides, the rendering layer performs.

use vstd::prelude::*;

use crate::camera::{cam_bounded, trig_bounded, updated_camera, Camera, Trig, PITCH_LIMIT};
use crate::controller::{
    apply_key, recognized, scroll_value, CtlModel, Key, ScrollDelta, MOUSE_FACTOR, ROTATE_MAX,
    SCROLL_MAX,
};
use crate::fixed::FP_ONE;
use crate::params::{invalidated, ticked, Params};

verus! {

/// A window or UI event the orchestrator reacts to, reduced to plain
/// values by the input layer.
#[derive(Clone, Copy, Debug, PartialEq, Eq, Structural)]
pub enum InputEvent {
    Keyboard(Key, bool),
    MouseWheel(ScrollDelta),
    MouseLeftButton(bool),
    Other,
}

/// Orchestration state. GPU handles stay outside; the generation counters
/// stand for which epoch each GPU object was built for.
#[derive(Clone, Copy, Debug, PartialEq, Eq, Structural)]
pub struct Context {
    pub width: u32,
    pub height: u32,
    pub params: Params,
    pub camera: Camera,
    pub mouse_pressed: bool,
    pub texture_generation: u64,
    pub compute_binding_generation: u64,
    pub blit_binding_generation: u64,
}

/// The resource consistency invariant: both binding sets were built for
/// the current texture generation, and the parameter block agrees with the
/// surface size. Constructors establish it; every operation preserves it.
pub open spec fn synchronized(c: Context) -> bool {
    &&& c.compute_binding_generation == c.texture_generation
    &&& c.blit_binding_generation == c.texture_generation
    &&& c.params.width == c.width
    &&& c.params.height == c.height
}

/// Does this event mark the image stale? Exactly the camera-state-changing
/// events invalidate the accumulated history.
pub open spec fn moves_camera(event: InputEvent) -> bool {
    match event {
        InputEvent::Keyboard(key, _) => recognized(key),
        InputEvent::MouseWheel(_) => true,
        InputEvent::MouseLeftButton(_) => true,
        InputEvent::Other => false,
    }
}

/// The controller after one input event.
pub open spec fn ctl_after_input(c: CtlModel, event: InputEvent) -> CtlModel {
    match event {
        InputEvent::Keyboard(key, pressed) => apply_key(c, key, pressed),
        InputEvent::MouseWheel(delta) => CtlModel { scroll: scroll_value(delta), ..c },
        InputEvent::MouseLeftButton(_) => c,
        InputEvent::Other => c,
    }
}

impl Context {
    /// The startup state: generation zero everywhere and a fresh parameter
    /// block, with the frame index reset-pending at -1.
    pub fn new(width: u32, height: u32, camera: Camera) -> (r: Context)
        requires
            width > 0,
            height > 0,
        ensures
            r.width == width,
            r.height == height,
            r.params == (Params {
                width,
                height,
                number_of_bounces: 1,
                rays_per_pixel: 1,
                accumulate: 1,
                skybox: 1,
                frames: -1i32,
            }),
            r.camera == camera,
            r.mouse_pressed == false,
            r.texture_generation == 0,
            synchronized(r),
    {
        let params = Params::new(width, height);
        Context {
            width,
            height,
            params,
            camera,
            mouse_pressed: false,
            texture_generation: 0,
            compute_binding_generation: 0,
            blit_binding_generation: 0,
        }
    }

    /// React to a window resize. A degenerate size (either dimension zero,
    /// as when the window is minimized) is a no-op: the previous texture
    /// and binding sets stay untouched. A real resize records the new
    /// size, recomputes the camera's aspect ratio, forces the frame index
    /// to -1, replaces the texture (a new generation) and rebuilds both
    /// binding sets for it, in that order.
    pub fn resize(&mut self, width: u32, height: u32)
        requires
            width > 0 && height > 0 ==> old(self).texture_generation < u64::MAX,
        ensures
            width == 0 || height == 0 ==> *final(self) == *old(self),
            width > 0 && height > 0 ==> *final(self) == (Context {
                width,
                height,
                params: Params {
                    width,
                    height,
                    frames: -1i32,
                    ..old(self).params
                },
                camera: Camera {
                    aspect: ((width as int * FP_ONE) / height as int) as i64,
                    ..old(self).camera
                },
                texture_generation: (old(self).texture_generation + 1) as u64,
                compute_binding_generation: (old(self).texture_generation + 1) as u64,
                blit_binding_generation: (old(self).texture_generation + 1) as u64,
                ..*old(self)
            }),
            final(self).texture_generation >= old(self).texture_generation,
            synchronized(*old(self)) ==> synchronized(*final(self)),
    {
        if width > 0 && height > 0 {
            self.width = width;
            self.height = height;
            self.camera.aspect = ((width as i64) * FP_ONE) / (height as i64);
            self.params.width = width;
            self.params.height = height;
            self.params.frames = -1;
            // Replace the texture first, then rebuild every binding set
            // that names it: nothing may reference the old generation.
            self.texture_generation = self.texture_generation + 1;
            self.compute_binding_generation = self.texture_generation;
            self.blit_binding_generation = self.texture_generation;
        }
    }

    /// React to one window event. When the UI layer has captured the
    /// input, nothing changes and the event is not consumed. Otherwise the
    /// event reaches the controller, and every camera-state-changing event
    /// discards the accumulated history. Returns whether the event was
    /// consumed.
    pub fn input(&mut self, event: InputEvent, ui_captured: bool) -> (moved: bool)
        requires
            event matches InputEvent::MouseWheel(delta) ==> -SCROLL_MAX <= scroll_value(delta)
                <= SCROLL_MAX,
        ensures
            moved == (!ui_captured && moves_camera(event)),
            ui_captured ==> *final(self) == *old(self),
            !ui_captured ==> *final(self) == (Context {
                camera: Camera {
                    controller: final (self).camera.controller,
                    ..old(self).camera
                },
                mouse_pressed: match event {
                    InputEvent::MouseLeftButton(pressed) => pressed,
                    _ => old(self).mouse_pressed,
                },
                params: if moves_camera(event) {
                    invalidated(old(self).params)
                } else {
                    old(self).params
                },
                ..*old(self)
            }),
            !ui_captured ==> final(self).camera.controller@ == ctl_after_input(
                old(self).camera.controller@,
                event,
            ),
    {
        if ui_captured {
            return false;
        }
        let moved: bool = match event {
            InputEvent::Keyboard(key, pressed) => self.camera.controller.process_keyboard(
                key,
                pressed,
            ),
            InputEvent::MouseWheel(delta) => {
                self.camera.controller.process_scroll(delta);
                true
            },
            InputEvent::MouseLeftButton(pressed) => {
                self.mouse_pressed = pressed;
                true
            },
            InputEvent::Other => false,
        };
        if moved {
            self.params.frames = -1;
        }
        moved
    }

    /// Feed one mouse motion to the controller. Rotating the camera makes
    /// the accumulated image stale, so the frame index is forced to -1.
    /// The "look active" gating (mouse button held) is the input layer's
    /// concern.
    pub fn process_mouse_delta(&mut self, dx: i64, dy: i64)
        requires
            -ROTATE_MAX <= MOUSE_FACTOR * dx <= ROTATE_MAX,
            -ROTATE_MAX <= MOUSE_FACTOR * dy <= ROTATE_MAX,
            -ROTATE_MAX <= old(self).camera.controller@.rotate_horizontal + MOUSE_FACTOR * dx
                <= ROTATE_MAX,
            -ROTATE_MAX <= old(self).camera.controller@.rotate_vertical + MOUSE_FACTOR * dy
                <= ROTATE_MAX,
        ensures
            final(self).camera.controller@ == (CtlModel {
                rotate_horizontal: old(self).camera.controller@.rotate_horizontal + MOUSE_FACTOR
                    * dx,
                rotate_vertical: old(self).camera.controller@.rotate_vertical + MOUSE_FACTOR * dy,
                ..old(self).camera.controller@
            }),
            *final(self) == (Context {
                camera: Camera {
                    controller: final (self).camera.controller,
                    ..old(self).camera
                },
                params: invalidated(old(self).params),
                ..*old(self)
            }),
    {
        self.camera.controller.process_mouse(dx, dy);
        self.params.frames = -1;
    }

    /// One frame tick: integrate the camera from the controller impulses,
    /// then advance the frame index (or reset it, with accumulation off).
    /// `motion` holds the sines and cosines of the camera's yaw and pitch
    /// on entry.
    pub fn update(&mut self, motion: &Trig)
        requires
            cam_bounded(old(self).camera@),
            trig_bounded(motion@),
            old(self).params.frames < i32::MAX,
        ensures
            final(self).camera@ == updated_camera(old(self).camera@, motion@),
            final(self).params == ticked(old(self).params),
            -PITCH_LIMIT <= final(self).camera@.pitch <= PITCH_LIMIT,
            *final(self) == (Context {
                camera: final (self).camera,
                params: final (self).params,
                ..*old(self)
            }),
    {
        self.camera.update_camera(motion);
        self.params.tick();
    }

    /// Discard the accumulated history without touching anything else.
    pub fn clear_accumulation(&mut self)
        ensures
            *final(self) == (Context { params: invalidated(old(self).params), ..*old(self) }),
    {
        self.params.invalidate();
    }

    /// Workgroup counts for the compute dispatch over the current render
    /// target: when the state is synchronized the dispatch covers exactly
    /// the size the texture and both binding sets were built for, with no
    /// row or column of pixels missed.
    pub fn dispatch_workgroups(&self) -> (g: (u32, u32))
        requires
            self.width + crate::render::WORKGROUP_SIZE - 1 <= u32::MAX,
            self.height + crate::render::WORKGROUP_SIZE - 1 <= u32::MAX,
        ensures
            g.0 * crate::render::WORKGROUP_SIZE >= self.width,
            g.1 * crate::render::WORKGROUP_SIZE >= self.height,
            self.width > 0 ==> (g.0 - 1) * crate::render::WORKGROUP_SIZE < self.width,
            self.height > 0 ==> (g.1 - 1) * crate::render::WORKGROUP_SIZE < self.height,
            synchronized(*self) ==> g.0 * crate::render::WORKGROUP_SIZE >= self.params.width
                && g.1 * crate::render::WORKGROUP_SIZE >= self.params.height,
    {
        crate::render::workgroup_counts(self.width, self.height)
    }
}

} // verus!

