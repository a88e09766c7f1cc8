//! Input controller: keys held, pending mouse rotation, pending scroll.
//!
//! Rotation and scroll fields are "events since last consumed": the camera
//! update zeroes them after one use, so an event never applies twice.

use vstd::prelude::*;

use crate::fixed::{fp_mul, FP_ONE};

verus! {

/// Directional amount a held key contributes (5.0 in fixed point).
pub const AMOUNT_PRESSED: i64 = 5_000_000;

/// Pending mouse deltas are multiplied by this whole-unit factor (3.0).
pub const MOUSE_FACTOR: i64 = 3;

/// One scroll-wheel line is worth this many fixed-point units (10000.0),
/// normalizing line deltas and pixel deltas to one scale.
pub const LINE_FACTOR: i64 = 10_000;

/// Largest magnitude a pending rotation accumulator may reach.
pub const ROTATE_MAX: i64 = 1_000_000_000_000;

/// Largest magnitude the pending scroll impulse may reach.
pub const SCROLL_MAX: i64 = 500_000_000_000;

/// Largest directional amount (1000.0 in fixed point).
pub const AMOUNT_MAX: i64 = 1_000_000_000;

/// Largest movement speed (1.0 in fixed point).
pub const SPEED_MAX: i64 = 1_000_000;

/// Largest rotation sensitivity (4.0 in fixed point).
pub const SENSITIVITY_MAX: i64 = 4_000_000;

/// The keys the controller recognizes; anything else is `Other`.
#[derive(Clone, Copy, Debug, PartialEq, Eq, Structural)]
pub enum Key {
    W,
    A,
    S,
    D,
    Up,
    Down,
    Left,
    Right,
    Space,
    LShift,
    Other,
}

/// A scroll-wheel event: whole lines or pixels, both in fixed point.
#[derive(Clone, Copy, Debug, PartialEq, Eq, Structural)]
pub enum ScrollDelta {
    Lines(i64),
    Pixels(i64),
}

/// Free-fly input state, all scalars in fixed point.
#[derive(Clone, Copy, Debug, PartialEq, Eq, Structural)]
pub struct CameraController {
    pub amount_left: i64,
    pub amount_right: i64,
    pub amount_forward: i64,
    pub amount_backward: i64,
    pub amount_up: i64,
    pub amount_down: i64,
    pub rotate_horizontal: i64,
    pub rotate_vertical: i64,
    pub scroll: i64,
    pub speed: i64,
    pub sensitivity: i64,
}

/// Mathematical model of the controller: unbounded integers.
pub struct CtlModel {
    pub amount_left: int,
    pub amount_right: int,
    pub amount_forward: int,
    pub amount_backward: int,
    pub amount_up: int,
    pub amount_down: int,
    pub rotate_horizontal: int,
    pub rotate_vertical: int,
    pub scroll: int,
    pub speed: int,
    pub sensitivity: int,
}

impl View for CameraController {
    type V = CtlModel;

    open spec fn view(&self) -> CtlModel {
        CtlModel {
            amount_left: self.amount_left as int,
            amount_right: self.amount_right as int,
            amount_forward: self.amount_forward as int,
            amount_backward: self.amount_backward as int,
            amount_up: self.amount_up as int,
            amount_down: self.amount_down as int,
            rotate_horizontal: self.rotate_horizontal as int,
            rotate_vertical: self.rotate_vertical as int,
            scroll: self.scroll as int,
            speed: self.speed as int,
            sensitivity: self.sensitivity as int,
        }
    }
}

/// Machine bounds every controller obeys; constructors establish it and
/// every operation preserves it.
pub open spec fn ctl_bounded(c: CtlModel) -> bool {
    &&& 0 <= c.amount_left <= AMOUNT_MAX
    &&& 0 <= c.amount_right <= AMOUNT_MAX
    &&& 0 <= c.amount_forward <= AMOUNT_MAX
    &&& 0 <= c.amount_backward <= AMOUNT_MAX
    &&& 0 <= c.amount_up <= AMOUNT_MAX
    &&& 0 <= c.amount_down <= AMOUNT_MAX
    &&& -ROTATE_MAX <= c.rotate_horizontal <= ROTATE_MAX
    &&& -ROTATE_MAX <= c.rotate_vertical <= ROTATE_MAX
    &&& -SCROLL_MAX <= c.scroll <= SCROLL_MAX
    &&& 0 <= c.speed <= SPEED_MAX
    &&& 0 <= c.sensitivity <= SENSITIVITY_MAX
}

/// Does the controller react to this key at all?
pub open spec fn recognized(key: Key) -> bool {
    key != Key::Other
}

/// What one key event does to the controller: the matching directional
/// amount becomes `AMOUNT_PRESSED` on press and 0 on release.
pub open spec fn apply_key(c: CtlModel, key: Key, pressed: bool) -> CtlModel {
    let amount: int = if pressed {
        AMOUNT_PRESSED as int
    } else {
        0
    };
    match key {
        Key::W | Key::Up => CtlModel { amount_forward: amount, ..c },
        Key::S | Key::Down => CtlModel { amount_backward: amount, ..c },
        Key::A | Key::Left => CtlModel { amount_left: amount, ..c },
        Key::D | Key::Right => CtlModel { amount_right: amount, ..c },
        Key::Space => CtlModel { amount_up: amount, ..c },
        Key::LShift => CtlModel { amount_down: amount, ..c },
        Key::Other => c,
    }
}

/// The normalized scroll impulse of one wheel event, sign inverted so that
/// scrolling up moves the camera forward.
pub open spec fn scroll_value(delta: ScrollDelta) -> int {
    match delta {
        ScrollDelta::Lines(s) => -(LINE_FACTOR * s),
        ScrollDelta::Pixels(p) => -p as int,
    }
}

/// Forward motion impulse of one frame: (forward - backward) * speed.
pub open spec fn forward_impulse(c: CtlModel) -> int {
    fp_mul(c.amount_forward - c.amount_backward, c.speed)
}

/// Rightward motion impulse of one frame: (right - left) * speed.
pub open spec fn right_impulse(c: CtlModel) -> int {
    fp_mul(c.amount_right - c.amount_left, c.speed)
}

/// Vertical motion impulse of one frame: (up - down) * speed.
pub open spec fn updown_impulse(c: CtlModel) -> int {
    fp_mul(c.amount_up - c.amount_down, c.speed)
}

/// Dolly impulse of one frame: scroll * speed * sensitivity.
pub open spec fn scroll_impulse(c: CtlModel) -> int {
    fp_mul(fp_mul(c.scroll, c.speed), c.sensitivity)
}

/// Yaw change of one frame: pending horizontal rotation * sensitivity.
pub open spec fn yaw_delta(c: CtlModel) -> int {
    fp_mul(c.rotate_horizontal, c.sensitivity)
}

/// Pitch change of one frame: minus pending vertical rotation * sensitivity.
pub open spec fn pitch_delta(c: CtlModel) -> int {
    -fp_mul(c.rotate_vertical, c.sensitivity)
}

/// The controller after the camera update consumed it: pending rotation and
/// scroll are zero, everything else is kept.
pub open spec fn consumed(c: CtlModel) -> CtlModel {
    CtlModel { rotate_horizontal: 0, rotate_vertical: 0, scroll: 0, ..c }
}

impl CameraController {
    /// A fresh controller: no keys held, nothing pending.
    pub fn new(speed: i64, sensitivity: i64) -> (r: CameraController)
        requires
            0 <= speed <= SPEED_MAX,
            0 <= sensitivity <= SENSITIVITY_MAX,
        ensures
            r@ == (CtlModel {
                amount_left: 0,
                amount_right: 0,
                amount_forward: 0,
                amount_backward: 0,
                amount_up: 0,
                amount_down: 0,
                rotate_horizontal: 0,
                rotate_vertical: 0,
                scroll: 0,
                speed: speed as int,
                sensitivity: sensitivity as int,
            }),
            ctl_bounded(r@),
    {
        CameraController {
            amount_left: 0,
            amount_right: 0,
            amount_forward: 0,
            amount_backward: 0,
            amount_up: 0,
            amount_down: 0,
            rotate_horizontal: 0,
            rotate_vertical: 0,
            scroll: 0,
            speed,
            sensitivity,
        }
    }

    /// React to one key press or release. Returns whether the key was
    /// recognized (the input layer uses this to suppress further dispatch).
    pub fn process_keyboard(&mut self, key: Key, pressed: bool) -> (r: bool)
        ensures
            final(self)@ == apply_key(old(self)@, key, pressed),
            r == recognized(key),
            ctl_bounded(old(self)@) ==> ctl_bounded(final(self)@),
    {
        let amount: i64 = if pressed {
            AMOUNT_PRESSED
        } else {
            0
        };
        match key {
            Key::W | Key::Up => {
                self.amount_forward = amount;
                true
            },
            Key::S | Key::Down => {
                self.amount_backward = amount;
                true
            },
            Key::A | Key::Left => {
                self.amount_left = amount;
                true
            },
            Key::D | Key::Right => {
                self.amount_right = amount;
                true
            },
            Key::Space => {
                self.amount_up = amount;
                true
            },
            Key::LShift => {
                self.amount_down = amount;
                true
            },
            Key::Other => false,
        }
    }

    /// Add one mouse motion to the pending rotation accumulators.
    pub fn process_mouse(&mut self, mouse_dx: i64, mouse_dy: i64)
        requires
            -ROTATE_MAX <= MOUSE_FACTOR * mouse_dx <= ROTATE_MAX,
            -ROTATE_MAX <= MOUSE_FACTOR * mouse_dy <= ROTATE_MAX,
            -ROTATE_MAX <= old(self)@.rotate_horizontal + MOUSE_FACTOR * mouse_dx <= ROTATE_MAX,
            -ROTATE_MAX <= old(self)@.rotate_vertical + MOUSE_FACTOR * mouse_dy <= ROTATE_MAX,
        ensures
            final(self)@ == (CtlModel {
                rotate_horizontal: old(self)@.rotate_horizontal + MOUSE_FACTOR * mouse_dx,
                rotate_vertical: old(self)@.rotate_vertical + MOUSE_FACTOR * mouse_dy,
                ..old(self)@
            }),
            ctl_bounded(old(self)@) ==> ctl_bounded(final(self)@),
    {
        self.rotate_horizontal = self.rotate_horizontal + MOUSE_FACTOR * mouse_dx;
        self.rotate_vertical = self.rotate_vertical + MOUSE_FACTOR * mouse_dy;
    }

    /// Overwrite the pending scroll impulse with one wheel event.
    pub fn process_scroll(&mut self, delta: ScrollDelta)
        requires
            -SCROLL_MAX <= scroll_value(delta) <= SCROLL_MAX,
        ensures
            final(self)@ == (CtlModel { scroll: scroll_value(delta), ..old(self)@ }),
            ctl_bounded(old(self)@) ==> ctl_bounded(final(self)@),
    {
        self.scroll = match delta {
            ScrollDelta::Lines(s) => -(LINE_FACTOR * s),
            ScrollDelta::Pixels(p) => -p,
        };
    }
}

} // verus!
