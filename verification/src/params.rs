//! The per-frame parameter block the compute shader reads, and the
//! progressive-accumulation frame counter embedded in it.
//!
//! The frame index is a signed sentinel counter: -1 means "no accumulated
//! history, treat this frame as the first of a new sequence"; any value
//! n >= 0 means "blend with n prior samples".

use vstd::prelude::*;

verus! {

/// GPU-visible parameters. The rendering layer lays this out for the
/// shader; the field order here is the binary order: width, height, bounce
/// count, rays per pixel, accumulate flag, skybox flag, frame index.
#[derive(Clone, Copy, Debug, PartialEq, Eq, Structural)]
pub struct Params {
    pub width: u32,
    pub height: u32,
    pub number_of_bounces: i32,
    pub rays_per_pixel: i32,
    pub accumulate: i32,
    pub skybox: i32,
    pub frames: i32,
}

/// One frame tick: with accumulation on the index advances by one; with
/// accumulation off it is forced to -1 every frame (continuous reset).
pub open spec fn ticked(p: Params) -> Params {
    if p.accumulate != 0 {
        Params { frames: (p.frames + 1) as i32, ..p }
    } else {
        Params { frames: -1i32, ..p }
    }
}

/// An invalidating event (camera-changing input, resize, accumulation
/// toggled off) forces the index to -1.
pub open spec fn invalidated(p: Params) -> Params {
    Params { frames: -1i32, ..p }
}

/// `n` successive frame ticks.
pub open spec fn ticked_n(p: Params, n: nat) -> Params
    decreases n,
{
    if n == 0 {
        p
    } else {
        ticked(ticked_n(p, (n - 1) as nat))
    }
}

impl Params {
    /// The startup parameter block: one bounce, one ray per pixel, skybox
    /// shown, accumulation on, and the frame index in the reset-pending
    /// state -1 — there is no accumulated history yet, so the shader must
    /// treat the first frame as the start of a new sequence.
    pub fn new(width: u32, height: u32) -> (r: Params)
        ensures
            r == (Params {
                width,
                height,
                number_of_bounces: 1,
                rays_per_pixel: 1,
                accumulate: 1,
                skybox: 1,
                frames: -1i32,
            }),
    {
        Params {
            width,
            height,
            number_of_bounces: 1,
            rays_per_pixel: 1,
            accumulate: 1,
            skybox: 1,
            frames: -1,
        }
    }

    /// Advance the frame index by one tick.
    pub fn tick(&mut self)
        requires
            old(self).frames < i32::MAX,
        ensures
            *final(self) == ticked(*old(self)),
    {
        if self.accumulate != 0 {
            self.frames = self.frames + 1;
        } else {
            self.frames = -1;
        }
    }

    /// Discard the accumulated history: the next tick restarts at zero.
    pub fn invalidate(&mut self)
        ensures
            *final(self) == invalidated(*old(self)),
    {
        self.frames = -1;
    }
}

/// The frame index sequence: after an invalidation, `n` ticks with
/// accumulation enabled and no further invalidating input land on
/// `n - 1`, running through -1, 0, 1, 2, ...; nothing else changes.
pub proof fn lemma_frame_index_sequence(p: Params, n: nat)
    requires
        p.accumulate != 0,
        n < 0x8000_0000,
    ensures
        ticked_n(invalidated(p), n).frames == n - 1,
        ticked_n(invalidated(p), n) == (Params { frames: (n - 1) as i32, ..p }),
    decreases n,
{
    if n > 0 {
        lemma_frame_index_sequence(p, (n - 1) as nat);
    }
}

/// With accumulation disabled, every tick lands on -1: there is never any
/// history to blend with.
pub proof fn lemma_no_accumulation(p: Params)
    requires
        p.accumulate == 0,
    ensures
        ticked(p).frames == -1,
{
}

} // verus!
