//! The moving sprite's mutable state: travel direction along each axis,
//! the texture currently shown, the display scale, and a moving flag.

use vstd::prelude::*;

verus! {

use crate::SCALE_MAX_MILLI;
use crate::SCALE_MIN_MILLI;

/// The display scale that wheel input drives, clamped into the allowed band.
pub open spec fn clamped_scale(s: int) -> int {
    if s < SCALE_MIN_MILLI as int {
        SCALE_MIN_MILLI as int
    } else if s > SCALE_MAX_MILLI as int {
        SCALE_MAX_MILLI as int
    } else {
        s
    }
}

/// State of the bouncing sprite. Textures are identified by small numbers;
/// the engine-facing layer maps each number to the asset it loaded.
pub struct Bouncy {
    /// Travel direction along the horizontal axis: `1` or `-1`.
    pub x: i8,
    /// Travel direction along the vertical axis: `1` or `-1`.
    pub y: i8,
    /// Index into `imgs` of the texture currently shown.
    pub img: u8,
    /// Identifiers of the textures available to cycle through.
    pub imgs: Vec<u32>,
    /// Display scale factor in milli-units.
    pub scale: u32,
    /// Whether the sprite is travelling; toggled by a key press.
    pub moving: bool,
}

impl Bouncy {
    /// Well-formedness: directions are signs, the texture index is in
    /// bounds, and the scale sits inside the allowed band.
    pub open spec fn wf(self) -> bool {
        &&& (self.x == 1 || self.x == -1i8)
        &&& (self.y == 1 || self.y == -1i8)
        &&& 1 <= self.imgs@.len() <= 255
        &&& (self.img as int) < self.imgs@.len()
        &&& SCALE_MIN_MILLI <= self.scale <= SCALE_MAX_MILLI
    }

    /// A freshly spawned sprite: travelling down-right once started, showing
    /// the first texture, and not yet moving.
    pub fn new(imgs: Vec<u32>, scale: u32) -> (b: Bouncy)
        requires
            1 <= imgs@.len() <= 255,
            SCALE_MIN_MILLI <= scale <= SCALE_MAX_MILLI,
        ensures
            b.wf(),
            b.x == 1 && b.y == 1,
            b.img == 0,
            b.imgs@ == imgs@,
            b.scale == scale,
            !b.moving,
    {
        Bouncy { x: 1, y: 1, img: 0, imgs, scale, moving: false }
    }

    /// Apply a wheel step to the scale and clamp it into the allowed band.
    pub fn adjust_scale(&mut self, delta: i32)
        requires
            old(self).wf(),
        ensures
            final(self).wf(),
            final(self).scale == clamped_scale(old(self).scale as int + delta as int),
            final(self).x == old(self).x,
            final(self).y == old(self).y,
            final(self).img == old(self).img,
            final(self).imgs@ == old(self).imgs@,
            final(self).moving == old(self).moving,
    {
        let moved: i64 = self.scale as i64 + delta as i64;
        self.scale = if moved < SCALE_MIN_MILLI as i64 {
            SCALE_MIN_MILLI
        } else if moved > SCALE_MAX_MILLI as i64 {
            SCALE_MAX_MILLI
        } else {
            moved as u32
        };
    }

    /// Flip the moving flag.
    pub fn toggle_moving(&mut self)
        requires
            old(self).wf(),
        ensures
            final(self).wf(),
            final(self).moving == !old(self).moving,
            final(self).x == old(self).x,
            final(self).y == old(self).y,
            final(self).img == old(self).img,
            final(self).imgs@ == old(self).imgs@,
            final(self).scale == old(self).scale,
    {
        self.moving = !self.moving;
    }

    /// Advance to the next texture, wrapping past the end of the list, and
    /// return the identifier of the texture now shown.
    pub fn cycle_image(&mut self) -> (tex: u32)
        requires
            old(self).wf(),
        ensures
            final(self).wf(),
            final(self).img as int == (old(self).img as int + 1) % old(self).imgs@.len() as int,
            tex == final(self).imgs@[final(self).img as int],
            final(self).x == old(self).x,
            final(self).y == old(self).y,
            final(self).imgs@ == old(self).imgs@,
            final(self).scale == old(self).scale,
            final(self).moving == old(self).moving,
    {
        let count: u8 = self.imgs.len() as u8;
        self.img = (self.img + 1) % count;
        self.imgs[self.img as usize]
    }
}

} // verus!
