//! Lines as quads: the offset that gives a segment its width.

use vstd::prelude::*;
use crate::geometry::Point;

verus! {

/// Greatest magnitude of a coordinate that a segment may have here, in
/// 256ths of a pixel.
pub const STROKE_REACH: i64 = 0x0004_0000_0000_0000;

/// Greatest half width of a stroke, in 256ths of a pixel.
pub const MAX_HALF_WIDTH: i64 = 0x8000_0000;

/// Whether `r` is the integer square root of `n`: the greatest number
/// whose square does not exceed `n`.
pub open spec fn is_root(n: int, r: int) -> bool {
    r >= 0 && r * r <= n < (r + 1) * (r + 1)
}

/// The integer square root of `n`.
pub open spec fn root(n: int) -> int {
    choose|r: int| is_root(n, r)
}

/// `v` divided by a positive `d`, rounded toward zero.
pub open spec fn toward_zero(v: int, d: int) -> int {
    if v >= 0 {
        v / d
    } else {
        -((-v) / d)
    }
}

/// The offset from the middle line of a segment to its edge: the normal
/// of the segment, scaled to the half width; nothing for a segment without
/// length.
pub open spec fn segment_offset(a: Point, b: Point, half: int) -> (int, int) {
    let dx = b.x - a.x;
    let dy = b.y - a.y;
    let len = root(dx * dx + dy * dy);
    if len == 0 {
        (0, 0)
    } else {
        (toward_zero(-dy * half, len), toward_zero(dx * half, len))
    }
}

/// Whether a point's coordinates are within `STROKE_REACH`.
pub open spec fn strokable(p: Point) -> bool {
    -STROKE_REACH <= p.x <= STROKE_REACH && -STROKE_REACH <= p.y <= STROKE_REACH
}

/// A number has at most one integer square root.
pub proof fn lemma_root_unique(n: int, r: int, s: int)
    requires
        is_root(n, r),
        is_root(n, s),
    ensures
        r == s,
{
    if r < s {
        assert((r + 1) * (r + 1) <= s * s) by (nonlinear_arith)
            requires
                0 <= r + 1 <= s,
        ;
    }
    if s < r {
        assert((s + 1) * (s + 1) <= r * r) by (nonlinear_arith)
            requires
                0 <= s + 1 <= r,
        ;
    }
}

/// Every number that is not negative has an integer square root.
pub proof fn lemma_root_exists(n: int)
    requires
        n >= 0,
    ensures
        is_root(n, root(n)),
    decreases n,
{
    if n == 0 {
        assert(is_root(0, 0));
    } else {
        lemma_root_exists(n - 1);
        let r = root(n - 1);
        if (r + 1) * (r + 1) <= n {
            assert((r + 1) * (r + 1) < (r + 2) * (r + 2)) by (nonlinear_arith)
                requires
                    r >= 0,
            ;
            assert(is_root(n, r + 1));
        } else {
            assert(is_root(n, r));
        }
    }
}

/// What is found to be the root is the root.
pub proof fn lemma_root_is(n: int, r: int)
    requires
        is_root(n, r),
    ensures
        root(n) == r,
{
    lemma_root_unique(n, r, root(n));
}

/// The integer square root.
pub fn integer_root(n: u128) -> (r: u64)
    requires
        n < 0x1_0000_0000_0000_0000_0000_0000_0000,
    ensures
        is_root(n as int, r as int),
        r == root(n as int),
{
    let mut lo: u64 = 0;
    let mut hi: u64 = 0x0100_0000_0000_0000;
    assert(0x0100_0000_0000_0000 * 0x0100_0000_0000_0000 == 0x1_0000_0000_0000_0000_0000_0000_0000)
        by (nonlinear_arith);
    while hi - lo > 1
        invariant
            lo < hi <= 0x0100_0000_0000_0000,
            lo * lo <= n < hi * hi,
        decreases hi - lo,
    {
        let mid: u64 = lo + (hi - lo) / 2;
        assert(mid * mid <= 0x0100_0000_0000_0000 * 0x0100_0000_0000_0000) by (nonlinear_arith)
            requires
                0 <= mid <= 0x0100_0000_0000_0000,
        ;
        let square: u128 = (mid as u128) * (mid as u128);
        if square <= n {
            lo = mid;
        } else {
            hi = mid;
        }
    }
    proof {
        lemma_root_is(n as int, lo as int);
    }
    lo
}

/// A component of a segment is no longer than the segment.
proof fn lemma_component_within(dx: int, dy: int, len: int)
    requires
        is_root(dx * dx + dy * dy, len),
    ensures
        -len <= dx <= len,
        -len <= dy <= len,
{
    assert(dx * dx >= 0 && dy * dy >= 0) by (nonlinear_arith);
    if dx > len {
        assert(dx * dx >= (len + 1) * (len + 1)) by (nonlinear_arith)
            requires
                dx >= len + 1,
                len >= 0,
        ;
    }
    if dx < -len {
        assert(dx * dx >= (len + 1) * (len + 1)) by (nonlinear_arith)
            requires
                -dx >= len + 1,
                len >= 0,
        ;
    }
    if dy > len {
        assert(dy * dy >= (len + 1) * (len + 1)) by (nonlinear_arith)
            requires
                dy >= len + 1,
                len >= 0,
        ;
    }
    if dy < -len {
        assert(dy * dy >= (len + 1) * (len + 1)) by (nonlinear_arith)
            requires
                -dy >= len + 1,
                len >= 0,
        ;
    }
}

/// A component scaled to the half width and divided by the length is at
/// most the half width.
proof fn lemma_scaled_within(d: int, half: int, len: int)
    requires
        len > 0,
        half >= 0,
        -len <= d <= len,
    ensures
        -half <= toward_zero(d * half, len) <= half,
{
    if d >= 0 {
        assert(0 <= d * half <= len * half) by (nonlinear_arith)
            requires
                0 <= d <= len,
                half >= 0,
        ;
        assert(0 <= (d * half) / len <= half) by (nonlinear_arith)
            requires
                0 <= d * half <= len * half,
                len > 0,
        ;
    } else {
        assert(0 <= -(d * half) <= len * half) by (nonlinear_arith)
            requires
                0 <= -d <= len,
                half >= 0,
        ;
        assert(0 <= (-(d * half)) / len <= half) by (nonlinear_arith)
            requires
                0 <= -(d * half) <= len * half,
                len > 0,
        ;
        if d * half >= 0 {
            assert(d * half == 0);
        }
    }
}

/// The offset of a segment is no longer than the half width on either axis.
pub proof fn lemma_segment_offset_within(a: Point, b: Point, half: int)
    requires
        half >= 0,
    ensures
        -half <= segment_offset(a, b, half).0 <= half,
        -half <= segment_offset(a, b, half).1 <= half,
{
    let dx = b.x - a.x;
    let dy = b.y - a.y;
    let len = root(dx * dx + dy * dy);
    assert(dx * dx + dy * dy >= 0) by (nonlinear_arith);
    lemma_root_exists(dx * dx + dy * dy);
    if len != 0 {
        lemma_component_within(dx, dy, len);
        lemma_scaled_within(-dy, half, len);
        lemma_scaled_within(dx, half, len);
    }
}

fn scaled_toward_zero(d: i64, half: u32, len: u64) -> (q: i64)
    requires
        len > 0,
        -(len as int) <= d <= len,
        len <= 0x0010_0000_0000_0000,
    ensures
        q == toward_zero(d * half, len as int),
        -(half as int) <= q <= half,
{
    proof {
        lemma_scaled_within(d as int, half as int, len as int);
    }
    if d >= 0 {
        assert(d * half <= 0x0010_0000_0000_0000 * 0xffff_ffff) by (nonlinear_arith)
            requires
                0 <= d <= 0x0010_0000_0000_0000,
                0 <= half <= 0xffff_ffff,
        ;
        let v: u128 = (d as u128) * (half as u128);
        assert(d * half >= 0) by (nonlinear_arith)
            requires
                d >= 0,
                half >= 0,
        ;
        let q: u128 = v / (len as u128);
        q as i64
    } else {
        let m: u128 = (-(d as i128)) as u128;
        assert(m * half <= 0x0010_0000_0000_0000 * 0xffff_ffff) by (nonlinear_arith)
            requires
                0 <= m <= 0x0010_0000_0000_0000,
                0 <= half <= 0xffff_ffff,
        ;
        let v: u128 = m * (half as u128);
        assert(d * half == -(m * half)) by (nonlinear_arith)
            requires
                m == -d,
        ;
        assert(d * half <= 0) by (nonlinear_arith)
            requires
                d < 0,
                half >= 0,
        ;
        let q: u128 = v / (len as u128);
        if v == 0 {
            assert(d * half == 0);
            0
        } else {
            assert(d * half < 0);
            -(q as i64)
        }
    }
}

/// The offset from the middle line of a segment to its edge.
pub fn offset_of(a: Point, b: Point, half: u32) -> (o: (i64, i64))
    requires
        strokable(a),
        strokable(b),
        half <= MAX_HALF_WIDTH,
    ensures
        o.0 == segment_offset(a, b, half as int).0,
        o.1 == segment_offset(a, b, half as int).1,
        -(half as int) <= o.0 <= half,
        -(half as int) <= o.1 <= half,
{
    let dx: i64 = b.x - a.x;
    let dy: i64 = b.y - a.y;
    let ax: u128 = if dx >= 0 {
        dx as u128
    } else {
        (-dx) as u128
    };
    let ay: u128 = if dy >= 0 {
        dy as u128
    } else {
        (-dy) as u128
    };
    assert(ax * ax <= 0x0008_0000_0000_0000 * 0x0008_0000_0000_0000 && ay * ay
        <= 0x0008_0000_0000_0000 * 0x0008_0000_0000_0000) by (nonlinear_arith)
        requires
            0 <= ax <= 0x0008_0000_0000_0000,
            0 <= ay <= 0x0008_0000_0000_0000,
    ;
    assert(ax * ax == dx * dx && ay * ay == dy * dy) by (nonlinear_arith)
        requires
            ax == dx || ax == -dx,
            ay == dy || ay == -dy,
    ;
    let len: u64 = integer_root(ax * ax + ay * ay);
    if len == 0 {
        return (0, 0);
    }
    proof {
        lemma_component_within(dx as int, dy as int, len as int);
        assert(len <= 0x0010_0000_0000_0000) by (nonlinear_arith)
            requires
                len * len <= 2 * (0x0008_0000_0000_0000 * 0x0008_0000_0000_0000),
                len >= 0,
        ;
    }
    let ox: i64 = scaled_toward_zero(-dy, half, len);
    let oy: i64 = scaled_toward_zero(dx, half, len);
    (ox, oy)
}

} // verus!
