//! The shader parameter block: a color-rotation index over a fixed palette,
//! advanced by a random step on every bounce, and the texture the shader
//! samples from.

use vstd::prelude::*;

verus! {

use crate::rng::random_in_range;

/// Rotation index after advancing by `step`, wrapped around a palette of
/// `total` rotations.
pub open spec fn rotated_by(rotation: int, total: int, step: int) -> int {
    (rotation + step) % total
}

/// GPU-visible parameters of the sprite's material. The rotation index
/// selects one of `total_colors` palette rotations; `texture` identifies
/// the image the shader samples.
pub struct ShaderParams {
    /// Current palette rotation, always below `total_colors`.
    pub rotation: u32,
    /// Number of palette rotations the shader cycles through.
    pub total_colors: u32,
    /// Identifier of the texture currently sampled.
    pub texture: u32,
}

impl ShaderParams {
    /// Well-formedness: the rotation index is in range, and the palette is
    /// large enough that a bounce can pick a nonzero step below its size.
    pub open spec fn wf(self) -> bool {
        &&& 3 <= self.total_colors
        &&& self.rotation < self.total_colors
    }

    /// Fresh parameters: rotation starts at zero.
    pub fn new(total_colors: u32, texture: u32) -> (p: ShaderParams)
        requires
            3 <= total_colors,
        ensures
            p.wf(),
            p.rotation == 0,
            p.total_colors == total_colors,
            p.texture == texture,
    {
        ShaderParams { rotation: 0, total_colors, texture }
    }

    /// Point the shader at another texture.
    pub fn set_texture(&mut self, texture: u32)
        ensures
            final(self).rotation == old(self).rotation,
            final(self).total_colors == old(self).total_colors,
            final(self).texture == texture,
    {
        self.texture = texture;
    }

    /// Advance the rotation by a given step, wrapping around the palette.
    /// A step strictly between zero and the palette size always lands on a
    /// different rotation.
    pub fn apply_rotation_step(&mut self, step: u32)
        requires
            old(self).wf(),
            1 <= step < old(self).total_colors,
        ensures
            final(self).wf(),
            final(self).rotation as int == rotated_by(
                old(self).rotation as int,
                old(self).total_colors as int,
                step as int,
            ),
            final(self).rotation != old(self).rotation,
            final(self).total_colors == old(self).total_colors,
            final(self).texture == old(self).texture,
    {
        let tc: u32 = self.total_colors;
        let sum: u64 = self.rotation as u64 + step as u64;
        let rotated: u64 = sum % tc as u64;
        proof {
            let r = self.rotation as int;
            let s = step as int;
            let t = tc as int;
            if r + s < t {
                assert((r + s) % t == r + s) by (nonlinear_arith)
                    requires 0 <= r + s < t;
            } else {
                assert((r + s) % t == r + s - t) by (nonlinear_arith)
                    requires t <= r + s < 2 * t, 0 < t;
            }
        }
        self.rotation = rotated as u32;
    }

    /// Advance the rotation on a bounce: a random step drawn from
    /// `1..total_colors - 1`, wrapped around the palette. Whatever the draw,
    /// the rotation changes, and by less than a full cycle.
    pub fn bounce_rotation(&mut self)
        requires
            old(self).wf(),
        ensures
            final(self).wf(),
            final(self).rotation != old(self).rotation,
            exists|step: int|
                1 <= step < old(self).total_colors - 1 && final(self).rotation as int
                    == #[trigger] rotated_by(
                    old(self).rotation as int,
                    old(self).total_colors as int,
                    step,
                ),
            final(self).total_colors == old(self).total_colors,
            final(self).texture == old(self).texture,
    {
        let step: u32 = random_in_range(1, self.total_colors - 1);
        let ghost pre = *self;
        self.apply_rotation_step(step);
        proof {
            assert(1 <= step as int && (step as int) < pre.total_colors as int - 1
                && self.rotation as int == rotated_by(
                pre.rotation as int,
                pre.total_colors as int,
                step as int,
            ));
        }
    }
}

} // verus!
