//! The pixel-space scissor rectangle of a draw.

use vstd::prelude::*;
use crate::geometry::{clamp_int, round_steps, Rect};

verus! {

/// A rectangle in device pixels, used to clip a draw.
#[derive(Clone, Copy, Debug, PartialEq, Eq, Structural)]
pub struct ScissorRect {
    pub x: u32,
    pub y: u32,
    pub width: u32,
    pub height: u32,
}

/// A logical coordinate brought to device pixels: multiplied by the pixel
/// scale, rounded to the nearest pixel and held between `lo` and `hi`.
pub open spec fn pixel_of(coord: i64, pixels_per_point: u16, lo: int, hi: int) -> int {
    clamp_int(round_steps(coord * pixels_per_point), lo, hi)
}

/// The scissor rectangle of a logical clip rectangle on a target surface.
pub open spec fn scissor_of(clip_rect: Rect, pixels_per_point: u16, target_size: [u32; 2])
    -> ScissorRect {
    let w = target_size[0] as int;
    let h = target_size[1] as int;
    let min_x = pixel_of(clip_rect.min.x, pixels_per_point, 0, w);
    let min_y = pixel_of(clip_rect.min.y, pixels_per_point, 0, h);
    let max_x = pixel_of(clip_rect.max.x, pixels_per_point, min_x, w);
    let max_y = pixel_of(clip_rect.max.y, pixels_per_point, min_y, h);
    ScissorRect {
        x: min_x as u32,
        y: min_y as u32,
        width: (max_x - min_x) as u32,
        height: (max_y - min_y) as u32,
    }
}

/// Whether a clip rectangle lies wholly off the target surface: it ends at
/// or before the origin, or starts at or past the far edge, on some axis.
pub open spec fn off_target(clip_rect: Rect, pixels_per_point: u16, target_size: [u32; 2])
    -> bool {
    ||| clip_rect.max.x <= 0
    ||| clip_rect.max.y <= 0
    ||| clip_rect.min.x * pixels_per_point >= target_size[0] * 256
    ||| clip_rect.min.y * pixels_per_point >= target_size[1] * 256
}

fn to_pixel(coord: i64, pixels_per_point: u16, lo: u32, hi: u32) -> (px: u32)
    requires
        lo <= hi,
    ensures
        px == pixel_of(coord, pixels_per_point, lo as int, hi as int),
{
    if coord < 0 {
        assert(coord * pixels_per_point <= 0) by (nonlinear_arith)
            requires
                coord < 0,
                pixels_per_point >= 0,
        ;
        return lo;
    }
    let c: u128 = coord as u128;
    let s: u128 = pixels_per_point as u128;
    assert(c * s <= 0x7fff_ffff_ffff_ffff * 0xffff) by (nonlinear_arith)
        requires
            c <= 0x7fff_ffff_ffff_ffff,
            s <= 0xffff,
    ;
    let rounded: u128 = (c * s + 128) / 256;
    if rounded < lo as u128 {
        lo
    } else if rounded > hi as u128 {
        hi
    } else {
        rounded as u32
    }
}

impl ScissorRect {
    /// Whether the rectangle holds no pixel.
    pub open spec fn is_empty(self) -> bool {
        self.width == 0 || self.height == 0
    }

    /// The scissor rectangle of a logical clip rectangle: each corner is
    /// scaled to device pixels and rounded, the least corner is held inside
    /// the target, and the greatest between the least and the target's far
    /// edge, so that neither extent is negative.
    pub fn new(clip_rect: &Rect, pixels_per_point: u16, target_size: [u32; 2]) -> (rect: Self)
        ensures
            rect == scissor_of(*clip_rect, pixels_per_point, target_size),
            rect.x + rect.width <= target_size[0],
            rect.y + rect.height <= target_size[1],
    {
        let min_x: u32 = to_pixel(clip_rect.min.x, pixels_per_point, 0, target_size[0]);
        let min_y: u32 = to_pixel(clip_rect.min.y, pixels_per_point, 0, target_size[1]);
        let max_x: u32 = to_pixel(clip_rect.max.x, pixels_per_point, min_x, target_size[0]);
        let max_y: u32 = to_pixel(clip_rect.max.y, pixels_per_point, min_y, target_size[1]);
        ScissorRect { x: min_x, y: min_y, width: max_x - min_x, height: max_y - min_y }
    }

    /// The scissor rectangle that covers the whole target.
    pub fn full(target_size: [u32; 2]) -> (rect: Self)
        ensures
            rect == (ScissorRect { x: 0, y: 0, width: target_size[0], height: target_size[1] }),
    {
        ScissorRect { x: 0, y: 0, width: target_size[0], height: target_size[1] }
    }

    /// Decides `is_empty`.
    pub fn has_no_area(&self) -> (empty: bool)
        ensures
            empty == self.is_empty(),
    {
        self.width == 0 || self.height == 0
    }
}

/// A clip rectangle that lies wholly off the target yields a scissor
/// rectangle without area.
pub proof fn lemma_off_target_is_empty(
    clip_rect: Rect,
    pixels_per_point: u16,
    target_size: [u32; 2],
)
    requires
        off_target(clip_rect, pixels_per_point, target_size),
    ensures
        scissor_of(clip_rect, pixels_per_point, target_size).is_empty(),
{
    let s = pixels_per_point as int;
    if clip_rect.max.x <= 0 {
        assert(clip_rect.max.x * s <= 0) by (nonlinear_arith)
            requires
                clip_rect.max.x <= 0,
                s >= 0,
        ;
    }
    if clip_rect.max.y <= 0 {
        assert(clip_rect.max.y * s <= 0) by (nonlinear_arith)
            requires
                clip_rect.max.y <= 0,
                s >= 0,
        ;
    }
}

/// The rectangle that clips nothing yields the whole target, at any scale
/// that is not zero.
pub proof fn lemma_everything_is_full(pixels_per_point: u16, target_size: [u32; 2])
    requires
        pixels_per_point >= 256,
    ensures
        scissor_of(Rect::everything_spec(), pixels_per_point, target_size) == (ScissorRect {
            x: 0,
            y: 0,
            width: target_size[0],
            height: target_size[1],
        }),
{
    let s = pixels_per_point as int;
    assert(i64::MIN * s < 0) by (nonlinear_arith)
        requires
            s >= 256,
    ;
    assert(i64::MAX * s >= i64::MAX * 256) by (nonlinear_arith)
        requires
            s >= 256,
    ;
}

} // verus!
