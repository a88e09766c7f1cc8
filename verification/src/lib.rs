//! Camera state machine and frame/resource synchronization core of an
//! interactive GPU path-tracing viewer.
//!
//! All scalar quantities (positions, angles, impulses) are fixed-point
//! integers with one million units to one: the arithmetic the contracts
//! speak of is exact. GPU submission, windowing and asset import live
//! outside this library and hand it plain values.

use vstd::prelude::*;

pub mod fixed;
pub mod vec3;
pub mod controller;
pub mod camera;
pub mod params;
pub mod context;
pub mod render;

verus! {

} // verus!
