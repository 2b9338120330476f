//! A small graphics-pipeline bootstrap library.
//!
//! The crate offers four pieces: a shader source cache with
//! staleness-driven recompilation, a name-indexed registry of shader
//! pairs, a single-use ownership cell that guards GPU handles against
//! double release, and a pipeline builder that assembles a render pass,
//! pipeline layout and graphics pipeline against an abstract device.

use vstd::prelude::*;

pub mod shader;
pub mod task;
pub mod utils;

verus! {

/// Owner of the swapchain and the per-frame state; the render loop driver
/// fills it in.
pub struct Renderer {}

} // verus!
