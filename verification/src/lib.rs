//! Logic of a bouncing-sprite scene: a sprite travels inside a window,
//! reflects off the edges, cycles through its textures on request, and
//! rescales on wheel input, while a shader parameter block tracks a color
//! rotation that advances on every bounce.
//!
//! All quantities are integers. Lengths are measured in milli-pixels
//! (one thousandth of a pixel) and the display scale factor in milli-units,
//! so that the engine-facing layer only converts units at the boundary.

pub mod motion;
mod rng;
pub mod shader;
pub mod sprite;

pub use shader::ShaderParams;
pub use sprite::Bouncy;

use vstd::prelude::*;

verus! {

/// Smallest display scale the sprite can be set to, in milli-units (0.1).
pub const SCALE_MIN_MILLI: u32 = 100;

/// Largest display scale the sprite can be set to, in milli-units (0.5).
pub const SCALE_MAX_MILLI: u32 = 500;

} // verus!
