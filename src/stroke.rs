//! Drawing modes, the state of one gesture, and the radius that a drag
//! gives.

use vstd::prelude::*;

use crate::canvas::Color;

verus! {

/// How a gesture sizes its disc.
#[derive(Clone, Copy, PartialEq, Eq, Structural, Debug)]
pub enum Mode {
    /// Pressing stamps at once, with the configured radius.
    FixedRadius,
    /// The press fixes the center; the distance to the pointer gives the radius.
    DragToSize,
}

/// The gesture in progress. Only a drag stays active between pointer events:
/// a fixed-radius press commits at once.
#[derive(Clone, Copy, PartialEq, Eq, Structural, Debug)]
pub enum StrokeState {
    Idle,
    Active { anchor_x: i32, anchor_y: i32 },
}

/// The radius and colour that the next stamps use. The radius serves the
/// fixed-radius mode only.
#[derive(Clone, Copy, PartialEq, Eq, Structural, Debug)]
pub struct DrawConfig {
    pub radius: u32,
    pub color: Color,
}

/// The squared Euclidean distance between `(ax, ay)` and `(x, y)`.
pub open spec fn dist_sq(ax: int, ay: int, x: int, y: int) -> int {
    (x - ax) * (x - ax) + (y - ay) * (y - ay)
}

/// `r` is the square root of `d` rounded toward zero.
pub open spec fn is_floor_sqrt(r: int, d: int) -> bool {
    0 <= r && r * r <= d && d < (r + 1) * (r + 1)
}

/// The square root of `d` rounded toward zero.
pub open spec fn floor_sqrt(d: int) -> int {
    choose|r: int| is_floor_sqrt(r, d)
}

/// The radius of a drag from `(ax, ay)` to `(x, y)`: the distance between the
/// two points, rounded toward zero.
pub open spec fn drag_radius_of(ax: int, ay: int, x: int, y: int) -> int {
    floor_sqrt(dist_sq(ax, ay, x, y))
}

/// A square root rounded toward zero is unique.
pub proof fn lemma_floor_sqrt_unique(r: int, d: int)
    requires
        is_floor_sqrt(r, d),
    ensures
        floor_sqrt(d) == r,
{
    let s = floor_sqrt(d);
    assert(is_floor_sqrt(s, d));
    if s < r {
        assert((s + 1) * (s + 1) <= r * r) by (nonlinear_arith)
            requires
                0 <= s < r,
        ;
    } else if r < s {
        assert((r + 1) * (r + 1) <= s * s) by (nonlinear_arith)
            requires
                0 <= r < s,
        ;
    }
}

/// The square root of `d` rounded toward zero, by bisection.
fn isqrt(d: u128) -> (r: u64)
    requires
        d < 0x4_0000_0000_0000_0000,
    ensures
        is_floor_sqrt(r as int, d as int),
{
    let mut lo: u64 = 0;
    let mut hi: u64 = 0x2_0000_0000;
    while hi - lo > 1
        invariant
            lo < hi <= 0x2_0000_0000,
            (lo as int) * (lo as int) <= d,
            d < (hi as int) * (hi as int),
        decreases hi - lo,
    {
        let mid: u64 = lo + (hi - lo) / 2;
        assert((mid as int) * (mid as int) <= 0x4_0000_0000_0000_0000) by (nonlinear_arith)
            requires
                mid <= 0x2_0000_0000,
        ;
        if (mid as u128) * (mid as u128) <= d {
            lo = mid;
        } else {
            hi = mid;
        }
    }
    lo
}

/// The radius of a drag from the anchor `(ax, ay)` to the pointer `(x, y)`:
/// their Euclidean distance rounded toward zero.
pub fn drag_radius(ax: i32, ay: i32, x: i32, y: i32) -> (r: u64)
    ensures
        r == drag_radius_of(ax as int, ay as int, x as int, y as int),
{
    let dx: i128 = x as i128 - ax as i128;
    let dy: i128 = y as i128 - ay as i128;
    assert(dx * dx < 0x1_0000_0000_0000_0000 && dy * dy < 0x1_0000_0000_0000_0000) by (nonlinear_arith)
        requires
            -0x1_0000_0000 < dx < 0x1_0000_0000,
            -0x1_0000_0000 < dy < 0x1_0000_0000,
    ;
    assert(dx * dx >= 0 && dy * dy >= 0) by (nonlinear_arith);
    let d: u128 = (dx * dx + dy * dy) as u128;
    let r = isqrt(d);
    proof {
        lemma_floor_sqrt_unique(r as int, d as int);
    }
    r
}

} // verus!
