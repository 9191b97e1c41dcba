//! Points, rectangles and the fixed-point pixel scale.

use vstd::prelude::*;

verus! {

/// Fixed-point steps in one unit: a pixel scale of `SUBPIXELS` is one pixel
/// per point, and a mesh position of `SUBPIXELS` is one device pixel.
pub const SUBPIXELS: u16 = 256;

/// A position in the plane.
#[derive(Clone, Copy, Debug, PartialEq, Eq, Structural)]
pub struct Point {
    pub x: i64,
    pub y: i64,
}

/// An axis-aligned rectangle, given by its least and greatest corner.
#[derive(Clone, Copy, Debug, PartialEq, Eq, Structural)]
pub struct Rect {
    pub min: Point,
    pub max: Point,
}

/// The surface that a frame is drawn to.
#[derive(Clone, Copy, Debug, PartialEq, Eq)]
pub struct ScreenDescriptor {
    /// Width and height of the surface in device pixels.
    pub size_in_pixels: [u32; 2],
    /// Device pixels per logical point, in 256ths.
    pub pixels_per_point: u16,
}

/// The lesser of two integers.
pub open spec fn min_int(a: int, b: int) -> int {
    if a <= b {
        a
    } else {
        b
    }
}

/// The greater of two integers.
pub open spec fn max_int(a: int, b: int) -> int {
    if a >= b {
        a
    } else {
        b
    }
}

/// `v` held to the range from `lo` to `hi`.
pub open spec fn clamp_int(v: int, lo: int, hi: int) -> int {
    if v < lo {
        lo
    } else if v > hi {
        hi
    } else {
        v
    }
}

/// A length in 256ths rounded to the nearest whole unit, halves away from
/// zero.
pub open spec fn round_steps(v: int) -> int {
    if v >= 0 {
        (v + 128) / 256
    } else {
        -((128 - v) / 256)
    }
}

impl Rect {
    /// The rectangle that clips nothing.
    pub open spec fn everything_spec() -> Rect {
        Rect {
            min: Point { x: i64::MIN, y: i64::MIN },
            max: Point { x: i64::MAX, y: i64::MAX },
        }
    }

    /// The rectangle that clips nothing.
    pub fn everything() -> (r: Rect)
        ensures
            r == Rect::everything_spec(),
    {
        Rect { min: Point { x: i64::MIN, y: i64::MIN }, max: Point { x: i64::MAX, y: i64::MAX } }
    }

    /// Whether the point lies in the rectangle, edges included.
    pub open spec fn contains(self, p: Point) -> bool {
        self.min.x <= p.x <= self.max.x && self.min.y <= p.y <= self.max.y
    }
}

impl ScreenDescriptor {
    /// Whether two surfaces have the same size in logical points: the
    /// quotients of pixel size by scale agree, compared exactly.
    pub open spec fn same_points(self, other: ScreenDescriptor) -> bool {
        &&& self.size_in_pixels[0] * other.pixels_per_point == other.size_in_pixels[0]
            * self.pixels_per_point
        &&& self.size_in_pixels[1] * other.pixels_per_point == other.size_in_pixels[1]
            * self.pixels_per_point
    }

    /// Decides `same_points`.
    pub fn has_same_points(&self, other: &ScreenDescriptor) -> (same: bool)
        ensures
            same == self.same_points(*other),
    {
        let w0: u64 = self.size_in_pixels[0] as u64;
        let h0: u64 = self.size_in_pixels[1] as u64;
        let w1: u64 = other.size_in_pixels[0] as u64;
        let h1: u64 = other.size_in_pixels[1] as u64;
        let s0: u64 = self.pixels_per_point as u64;
        let s1: u64 = other.pixels_per_point as u64;
        assert(w0 * s1 <= 0xffff_ffff * 0xffff && w1 * s0 <= 0xffff_ffff * 0xffff && h0 * s1
            <= 0xffff_ffff * 0xffff && h1 * s0 <= 0xffff_ffff * 0xffff) by (nonlinear_arith)
            requires
                w0 <= 0xffff_ffff,
                w1 <= 0xffff_ffff,
                h0 <= 0xffff_ffff,
                h1 <= 0xffff_ffff,
                s0 <= 0xffff,
                s1 <= 0xffff,
        ;
        w0 * s1 == w1 * s0 && h0 * s1 == h1 * s0
    }
}

/// A rectangle in device space brought back to logical points, at a pixel
/// scale that is not zero: the least corner rounded down and the greatest
/// rounded up, so that the result holds all that the rectangle held.
pub open spec fn logical_rect(rect: Rect, scale: u16) -> Rect {
    Rect {
        min: Point {
            x: (rect.min.x as int / scale as int) as i64,
            y: (rect.min.y as int / scale as int) as i64,
        },
        max: Point {
            x: (-((-rect.max.x) as int / scale as int)) as i64,
            y: (-((-rect.max.y) as int / scale as int)) as i64,
        },
    }
}

fn floor_div(a: i64, d: u16) -> (q: i64)
    requires
        d > 0,
    ensures
        q == a as int / d as int,
        a >= 0 ==> 0 <= q <= a,
        a < 0 ==> a <= q <= 0,
{
    if a >= 0 {
        let q: u64 = (a as u64) / (d as u64);
        assert(0 <= q <= a) by (nonlinear_arith)
            requires
                q == a as int / d as int,
                a >= 0,
                d > 0,
        ;
        q as i64
    } else {
        let m: u128 = (-(a as i128)) as u128;
        let up: u128 = (m + (d as u128 - 1)) / (d as u128);
        proof {
            let r = up * d - m;
            assert(0 <= r < d && up * d == m + r && 0 <= up <= m) by (nonlinear_arith)
                requires
                    up == (m + (d - 1)) / (d as int),
                    d > 0,
                    m > 0,
                    r == up * d - m,
            ;
            assert(a == (-up) * d + r) by (nonlinear_arith)
                requires
                    up * d == m + r,
                    a == -m,
            ;
            vstd::arithmetic::div_mod::lemma_fundamental_div_mod_converse(
                a as int,
                d as int,
                -(up as int),
                r,
            );
        }
        (-(up as i128)) as i64
    }
}

fn ceil_div(a: i64, d: u16) -> (q: i64)
    requires
        d > 0,
        a > i64::MIN,
    ensures
        q == -((-a) as int / d as int),
{
    -floor_div(-a, d)
}

impl Rect {
    /// The rectangle of no extent at the origin.
    pub open spec fn zero_spec() -> Rect {
        Rect { min: Point { x: 0, y: 0 }, max: Point { x: 0, y: 0 } }
    }

    /// The rectangle of no extent at the origin.
    pub fn zero() -> (r: Rect)
        ensures
            r == Rect::zero_spec(),
    {
        Rect { min: Point { x: 0, y: 0 }, max: Point { x: 0, y: 0 } }
    }

    /// Brings a rectangle in device space back to logical points.
    pub fn to_logical(&self, scale: u16) -> (r: Rect)
        requires
            scale > 0,
            self.max.x > i64::MIN,
            self.max.y > i64::MIN,
        ensures
            r == logical_rect(*self, scale),
    {
        Rect {
            min: Point { x: floor_div(self.min.x, scale), y: floor_div(self.min.y, scale) },
            max: Point { x: ceil_div(self.max.x, scale), y: ceil_div(self.max.y, scale) },
        }
    }
}

} // verus!
