//! Frame-by-frame movement: the sprite's position is integrated linearly
//! over the elapsed time, clamped to the window's half-extents, and its
//! travel direction reflected on contact; every bounce advances the shader's
//! color rotation.
//!
//! Positions and sizes are in milli-pixels; window and image dimensions come
//! in whole pixels; elapsed time comes in milliseconds.

use vstd::prelude::*;

verus! {

use crate::shader::ShaderParams;
use crate::sprite::Bouncy;

/// Travel speed: 150 pixels per second, i.e. 150 milli-pixels per millisecond.
pub const SPEED_MILLI_PER_MS: i64 = 150;

/// Largest elapsed time accepted for one frame (a thousand seconds).
pub const MAX_DT_MS: u32 = 1_000_000;

/// Largest position magnitude accepted, comfortably above any half-extent.
pub const MAX_POS_MILLI: i64 = 10_000_000_000_000;

/// The smaller of the window's two dimensions.
pub open spec fn min_dim(a: int, b: int) -> int {
    if a <= b {
        a
    } else {
        b
    }
}

/// Aspect correction in milli-units: `min(1, num / den)` of the image's
/// dimensions, so the sprite never stretches past a square.
pub open spec fn aspect_milli(num: int, den: int) -> int {
    if num >= den {
        1000
    } else {
        num * 1000 / den
    }
}

/// Rendered extent of the sprite along one axis, in milli-pixels: the
/// display scale applied to the window's smaller dimension, corrected by
/// the image's aspect ratio.
pub open spec fn size_milli(width: int, height: int, scale: int, num: int, den: int) -> int {
    min_dim(width, height) * scale * aspect_milli(num, den) / 1000
}

/// Half-extent of the sprite's travel along one axis, in milli-pixels: the
/// sprite's center stays within this distance of the window's center.
pub open spec fn half_extent_milli(dim: int, size: int) -> int {
    (dim * 1000 - size) / 2
}

/// Position after one frame's travel, before any clamping.
pub open spec fn moved_pos(pos: int, dir: int, disp: int) -> int {
    pos + disp * dir
}

/// Whether the travelled position left the half-extent band.
pub open spec fn bounces(range: int, moved: int) -> bool {
    moved > range || moved < -range
}

/// The travelled position clamped into the half-extent band.
pub open spec fn clamp_to(range: int, moved: int) -> int {
    if moved > range {
        range
    } else if moved < -range {
        -range
    } else {
        moved
    }
}

/// Direction after the frame: reflected away from whichever edge was hit.
pub open spec fn dir_after(dir: int, range: int, moved: int) -> int {
    if moved > range {
        -1
    } else if moved < -range {
        1
    } else {
        dir
    }
}

/// Rendered sprite extents and the travel band they leave in the window.
pub struct Extents {
    /// Sprite width in milli-pixels.
    pub x_size: i64,
    /// Sprite height in milli-pixels.
    pub y_size: i64,
    /// Horizontal half-extent of travel in milli-pixels.
    pub x_range: i64,
    /// Vertical half-extent of travel in milli-pixels.
    pub y_range: i64,
}

/// Compute the sprite's rendered extents and travel band from the window
/// dimensions, the display scale, and the image dimensions.
pub fn sprite_extents(width: u32, height: u32, scale: u32, img_w: u32, img_h: u32) -> (r: Extents)
    requires
        1 <= width,
        1 <= height,
        1 <= img_w,
        1 <= img_h,
        crate::SCALE_MIN_MILLI <= scale <= crate::SCALE_MAX_MILLI,
    ensures
        r.x_size as int == size_milli(
            width as int,
            height as int,
            scale as int,
            img_w as int,
            img_h as int,
        ),
        r.y_size as int == size_milli(
            width as int,
            height as int,
            scale as int,
            img_h as int,
            img_w as int,
        ),
        r.x_range as int == half_extent_milli(width as int, r.x_size as int),
        r.y_range as int == half_extent_milli(height as int, r.y_size as int),
        0 <= r.x_size,
        0 <= r.y_size,
        0 <= r.x_range <= 2_200_000_000_000,
        0 <= r.y_range <= 2_200_000_000_000,
{
    let m: u64 = if width <= height {
        width as u64
    } else {
        height as u64
    };
    proof {
        assert(m as int * scale as int <= 4294967295 * 500) by (nonlinear_arith)
            requires
                0 <= m as int <= 4294967295,
                0 <= scale as int <= 500,
        ;
    }
    let ss: u64 = m * scale as u64;
    let ax: u64 = if img_w >= img_h {
        1000
    } else {
        (img_w as u64 * 1000) / (img_h as u64)
    };
    let ay: u64 = if img_h >= img_w {
        1000
    } else {
        (img_h as u64 * 1000) / (img_w as u64)
    };
    proof {
        if img_w < img_h {
            assert(img_w as int * 1000 / (img_h as int) < 1000) by (nonlinear_arith)
                requires
                    0 <= img_w as int,
                    (img_w as int) < (img_h as int),
            ;
        }
        if img_h < img_w {
            assert(img_h as int * 1000 / (img_w as int) < 1000) by (nonlinear_arith)
                requires
                    0 <= img_h as int,
                    (img_h as int) < (img_w as int),
            ;
        }
        assert(ss as int * ax as int <= 2147483647500 * 1000) by (nonlinear_arith)
            requires
                0 <= ss as int <= 2147483647500,
                0 <= ax as int <= 1000,
        ;
        assert(ss as int * ay as int <= 2147483647500 * 1000) by (nonlinear_arith)
            requires
                0 <= ss as int <= 2147483647500,
                0 <= ay as int <= 1000,
        ;
    }
    let xs: u64 = ss * ax / 1000;
    let ys: u64 = ss * ay / 1000;
    proof {
        assert(ss as int * ax as int / 1000 <= ss as int) by (nonlinear_arith)
            requires
                0 <= ss as int,
                0 <= ax as int <= 1000,
        ;
        assert(ss as int * ay as int / 1000 <= ss as int) by (nonlinear_arith)
            requires
                0 <= ss as int,
                0 <= ay as int <= 1000,
        ;
        assert(m as int * scale as int <= width as int * 500) by (nonlinear_arith)
            requires
                0 <= m as int <= width as int,
                0 <= scale as int <= 500,
        ;
        assert(m as int * scale as int <= height as int * 500) by (nonlinear_arith)
            requires
                0 <= m as int <= height as int,
                0 <= scale as int <= 500,
        ;
    }
    let xr: i64 = ((width as i64) * 1000 - xs as i64) / 2;
    let yr: i64 = ((height as i64) * 1000 - ys as i64) / 2;
    Extents { x_size: xs as i64, y_size: ys as i64, x_range: xr, y_range: yr }
}

/// Result of one axis of travel: the clamped position, the direction kept
/// or reflected, and whether an edge was hit.
pub struct AxisStep {
    /// Position after travel and clamping, in milli-pixels.
    pub pos: i64,
    /// Direction after the frame: `1` or `-1`.
    pub dir: i8,
    /// Whether the travelled position left the band and was clamped.
    pub bounced: bool,
}

/// Travel along one axis: advance the position by the displacement in the
/// current direction; past either edge of the band, clamp to that edge and
/// reflect the direction.
pub fn step_axis(pos: i64, dir: i8, disp: i64, range: i64) -> (r: AxisStep)
    requires
        dir == 1 || dir == -1i8,
        0 <= disp <= 1_000_000_000,
        0 <= range <= 3_000_000_000_000,
        -MAX_POS_MILLI <= pos <= MAX_POS_MILLI,
    ensures
        r.pos as int == clamp_to(range as int, moved_pos(pos as int, dir as int, disp as int)),
        r.dir as int == dir_after(dir as int, range as int, moved_pos(pos as int, dir as int, disp as int)),
        r.bounced == bounces(range as int, moved_pos(pos as int, dir as int, disp as int)),
        r.dir == 1 || r.dir == -1i8,
        -range <= r.pos <= range,
{
    proof {
        assert(disp as int * (dir as int) == if dir as int == 1 {
            disp as int
        } else {
            -(disp as int)
        }) by (nonlinear_arith)
            requires
                dir as int == 1 || dir as int == -1,
        ;
    }
    let moved: i64 = if dir == 1 {
        pos + disp
    } else {
        pos - disp
    };
    if moved > range {
        AxisStep { pos: range, dir: -1, bounced: true }
    } else if moved < -range {
        AxisStep { pos: -range, dir: 1, bounced: true }
    } else {
        AxisStep { pos: moved, dir, bounced: false }
    }
}

/// One frame of the update loop for a moving sprite.
///
/// When the sprite is stopped, nothing changes and no extents are returned.
/// Otherwise the sprite's rendered extents are computed and returned for the
/// engine to apply, the position advances by the elapsed time at the fixed
/// travel speed, each axis clamps and reflects at the window's edge, and
/// every bounce advances the shader's color rotation by a random step.
pub fn sprite_movement(
    bouncy: &mut Bouncy,
    params: &mut ShaderParams,
    pos_x: &mut i64,
    pos_y: &mut i64,
    width: u32,
    height: u32,
    img_w: u32,
    img_h: u32,
    dt_ms: u32,
) -> (size: Option<(i64, i64)>)
    requires
        old(bouncy).wf(),
        old(params).wf(),
        1 <= width,
        1 <= height,
        1 <= img_w,
        1 <= img_h,
        dt_ms <= MAX_DT_MS,
        -MAX_POS_MILLI <= *old(pos_x) <= MAX_POS_MILLI,
        -MAX_POS_MILLI <= *old(pos_y) <= MAX_POS_MILLI,
    ensures
        final(bouncy).wf(),
        final(params).wf(),
        final(bouncy).img == old(bouncy).img,
        final(bouncy).imgs@ == old(bouncy).imgs@,
        final(bouncy).scale == old(bouncy).scale,
        final(bouncy).moving == old(bouncy).moving,
        final(params).total_colors == old(params).total_colors,
        final(params).texture == old(params).texture,
        !old(bouncy).moving ==> (size is None && *final(pos_x) == *old(pos_x) && *final(pos_y)
            == *old(pos_y) && final(bouncy).x == old(bouncy).x && final(bouncy).y == old(bouncy).y
            && final(params).rotation == old(params).rotation),
        old(bouncy).moving ==> ({
            let scale = old(bouncy).scale as int;
            let sx = size_milli(width as int, height as int, scale, img_w as int, img_h as int);
            let sy = size_milli(width as int, height as int, scale, img_h as int, img_w as int);
            let rx = half_extent_milli(width as int, sx);
            let ry = half_extent_milli(height as int, sy);
            let d = SPEED_MILLI_PER_MS as int * dt_ms as int;
            let mx = moved_pos(*old(pos_x) as int, old(bouncy).x as int, d);
            let my = moved_pos(*old(pos_y) as int, old(bouncy).y as int, d);
            &&& size == Some((sx as i64, sy as i64))
            &&& *final(pos_x) as int == clamp_to(rx, mx)
            &&& *final(pos_y) as int == clamp_to(ry, my)
            &&& final(bouncy).x as int == dir_after(old(bouncy).x as int, rx, mx)
            &&& final(bouncy).y as int == dir_after(old(bouncy).y as int, ry, my)
            &&& -rx <= *final(pos_x) as int <= rx
            &&& -ry <= *final(pos_y) as int <= ry
            &&& (!bounces(rx, mx) && !bounces(ry, my) ==> final(params).rotation == old(
                params,
            ).rotation)
        }),
{
    if !bouncy.moving {
        None
    } else {
        let ext = sprite_extents(width, height, bouncy.scale, img_w, img_h);
        let disp: i64 = SPEED_MILLI_PER_MS * dt_ms as i64;
        let step_x = step_axis(*pos_x, bouncy.x, disp, ext.x_range);
        *pos_x = step_x.pos;
        bouncy.x = step_x.dir;
        if step_x.bounced {
            params.bounce_rotation();
        }
        let step_y = step_axis(*pos_y, bouncy.y, disp, ext.y_range);
        *pos_y = step_y.pos;
        bouncy.y = step_y.dir;
        if step_y.bounced {
            params.bounce_rotation();
        }
        Some((ext.x_size, ext.y_size))
    }
}

} // verus!
