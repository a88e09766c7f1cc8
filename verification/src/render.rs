//! Per-frame render decisions: compute-dispatch workgroup counts, the
//! presentation error policy, surface format preference, and the
//! full-screen blit geometry.

use vstd::prelude::*;

verus! {

/// Compute workgroups tile the target in squares of this side.
pub const WORKGROUP_SIZE: u32 = 8;

/// How the frame loop reacts to a presentation error.
#[derive(Clone, Copy, Debug, PartialEq, Eq, Structural)]
pub enum SurfaceErrorKind {
    /// The surface was lost or is outdated: transient.
    Lost,
    Outdated,
    /// The device is out of memory: fatal.
    OutOfMemory,
    /// The presentation engine timed out: ignorable.
    Timeout,
}

/// What the frame loop does next.
#[derive(Clone, Copy, Debug, PartialEq, Eq, Structural)]
pub enum RecoveryAction {
    /// Reconfigure to the current window size and try again next frame.
    ResizeAndRetry,
    /// Terminate the loop.
    Exit,
    /// Log, skip this frame, attempt the next one normally.
    SkipFrame,
}

/// The error policy: lost or outdated surfaces are recovered locally by a
/// forced resize, out-of-memory is fatal, a timeout skips the frame.
pub fn recovery_action(error: SurfaceErrorKind) -> (r: RecoveryAction)
    ensures
        r == RecoveryAction::ResizeAndRetry <==> (error == SurfaceErrorKind::Lost || error
            == SurfaceErrorKind::Outdated),
        r == RecoveryAction::Exit <==> error == SurfaceErrorKind::OutOfMemory,
        r == RecoveryAction::SkipFrame <==> error == SurfaceErrorKind::Timeout,
{
    match error {
        SurfaceErrorKind::Lost | SurfaceErrorKind::Outdated => RecoveryAction::ResizeAndRetry,
        SurfaceErrorKind::OutOfMemory => RecoveryAction::Exit,
        SurfaceErrorKind::Timeout => RecoveryAction::SkipFrame,
    }
}

/// Workgroup count along one axis: the ceiling of `dim / WORKGROUP_SIZE`,
/// so the groups cover the whole axis and none is spare.
pub fn workgroups(dim: u32) -> (g: u32)
    requires
        dim + WORKGROUP_SIZE - 1 <= u32::MAX,
    ensures
        g == (dim + WORKGROUP_SIZE - 1) / (WORKGROUP_SIZE as int),
        g * WORKGROUP_SIZE >= dim,
        dim > 0 ==> g >= 1 && (g - 1) * WORKGROUP_SIZE < dim,
{
    (dim + (WORKGROUP_SIZE - 1)) / WORKGROUP_SIZE
}

/// Workgroup counts covering a two-dimensional target.
pub fn workgroup_counts(width: u32, height: u32) -> (g: (u32, u32))
    requires
        width + WORKGROUP_SIZE - 1 <= u32::MAX,
        height + WORKGROUP_SIZE - 1 <= u32::MAX,
    ensures
        g.0 == (width + WORKGROUP_SIZE - 1) / (WORKGROUP_SIZE as int),
        g.1 == (height + WORKGROUP_SIZE - 1) / (WORKGROUP_SIZE as int),
        g.0 * WORKGROUP_SIZE >= width,
        g.1 * WORKGROUP_SIZE >= height,
        width > 0 ==> (g.0 - 1) * WORKGROUP_SIZE < width,
        height > 0 ==> (g.1 - 1) * WORKGROUP_SIZE < height,
{
    (workgroups(width), workgroups(height))
}

/// The index of the surface format to present in: the first one flagged
/// sRGB, or the first format at all when none is.
pub fn preferred_format_index(srgb: &Vec<bool>) -> (i: usize)
    requires
        srgb.len() > 0,
    ensures
        i < srgb.len(),
        srgb[i as int] ==> forall|j: int| 0 <= j < i ==> !srgb[j],
        !srgb[i as int] ==> i == 0 && forall|j: int| 0 <= j < srgb.len() ==> !srgb[j],
{
    let mut k: usize = 0;
    while k < srgb.len()
        invariant
            k <= srgb.len(),
            forall|j: int| 0 <= j < k ==> !srgb[j],
        decreases srgb.len() - k,
    {
        if srgb[k] {
            return k;
        }
        k = k + 1;
    }
    0
}

/// A corner of the full-screen blit quad: x, y in clip space and the
/// texture coordinates it samples.
#[derive(Clone, Copy, Debug, PartialEq, Eq, Structural)]
pub struct BlitVertex {
    pub x: i8,
    pub y: i8,
    pub u: i8,
    pub v: i8,
}

/// The four corners of the full-screen quad the blit pass rasterizes.
pub fn blit_vertices() -> (r: Vec<BlitVertex>)
    ensures
        r@ == seq![
            BlitVertex { x: -1i8, y: -1i8, u: 1i8, v: 0i8 },
            BlitVertex { x: 1i8, y: -1i8, u: 0i8, v: 0i8 },
            BlitVertex { x: 1i8, y: 1i8, u: 0i8, v: 1i8 },
            BlitVertex { x: -1i8, y: 1i8, u: 1i8, v: 1i8 },
        ],
{
    let mut r: Vec<BlitVertex> = Vec::new();
    r.push(BlitVertex { x: -1, y: -1, u: 1, v: 0 });
    r.push(BlitVertex { x: 1, y: -1, u: 0, v: 0 });
    r.push(BlitVertex { x: 1, y: 1, u: 0, v: 1 });
    r.push(BlitVertex { x: -1, y: 1, u: 1, v: 1 });
    proof {
        assert(r@ =~= seq![
            BlitVertex { x: -1i8, y: -1i8, u: 1i8, v: 0i8 },
            BlitVertex { x: 1i8, y: -1i8, u: 0i8, v: 0i8 },
            BlitVertex { x: 1i8, y: 1i8, u: 0i8, v: 1i8 },
            BlitVertex { x: -1i8, y: 1i8, u: 1i8, v: 1i8 },
        ]);
    }
    r
}

/// The two triangles (as vertex indices) covering the blit quad.
pub fn blit_indices() -> (r: Vec<u16>)
    ensures
        r@ == seq![0u16, 1u16, 2u16, 2u16, 3u16, 0u16],
{
    let mut r: Vec<u16> = Vec::new();
    r.push(0);
    r.push(1);
    r.push(2);
    r.push(2);
    r.push(3);
    r.push(0);
    proof {
        assert(r@ =~= seq![0u16, 1u16, 2u16, 2u16, 3u16, 0u16]);
    }
    r
}

/// A toggle as the shader sees it: 1 for on, 0 for off.
pub fn flag(on: bool) -> (r: i32)
    ensures
        r == if on { 1int } else { 0int },
{
    if on {
        1
    } else {
        0
    }
}

/// A shader toggle read back: anything nonzero is on.
pub fn enabled(value: i32) -> (r: bool)
    ensures
        r == (value != 0),
{
    value != 0
}

} // verus!
