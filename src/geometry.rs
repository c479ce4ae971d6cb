//! Axis-aligned rectangles, the overlap test and the side classification.
//!
//! A rectangle is a center and a full size; its half-size is `size / 2`. To
//! keep half-sizes integral, the spec functions below reason in doubled
//! coordinates: a rectangle spans `[2 * center - size, 2 * center + size]`.
use vstd::prelude::*;

verus! {

/// A 2D vector of integers (a point, a size or a velocity).
#[derive(Clone, Copy, Debug, PartialEq, Eq, Structural)]
pub struct Vec2 {
    pub x: i64,
    pub y: i64,
}

/// An axis-aligned rectangle given by its center and its full size.
#[derive(Clone, Copy, Debug, PartialEq, Eq, Structural)]
pub struct Rect {
    pub center: Vec2,
    pub size: Vec2,
}

/// Which edge of the other rectangle a rectangle hit.
#[derive(Clone, Copy, Debug, PartialEq, Eq, Structural)]
pub enum Collision {
    Top,
    Bottom,
    Left,
    Right,
}

/// Largest magnitude of a doubled coordinate handled by the axis helpers.
/// Every center (even one moved by a velocity over a time step) stays below it.
pub open spec fn coord_bound() -> int {
    0x1_0000_0000_0000_0000_0000_0000
}

pub open spec fn abs(v: int) -> int {
    if v < 0 {
        -v
    } else {
        v
    }
}

pub open spec fn clamp(v: int, lo: int, hi: int) -> int {
    if v < lo {
        lo
    } else if v > hi {
        hi
    } else {
        v
    }
}

/// Two intervals, each a center and a full size, overlap:
/// `|ca - cb| < size_a / 2 + size_b / 2`, written without halves.
pub open spec fn overlap_1d(ca: int, sa: int, cb: int, sb: int) -> bool {
    2 * abs(ca - cb) < sa + sb
}

impl Rect {
    /// Sizes are non-negative.
    pub open spec fn wf(self) -> bool {
        self.size.x >= 0 && self.size.y >= 0
    }
}

/// The two rectangles overlap on both axes.
pub open spec fn rects_overlap(a: Rect, b: Rect) -> bool {
    overlap_1d(a.center.x as int, a.size.x as int, b.center.x as int, b.size.x as int)
        && overlap_1d(a.center.y as int, a.size.y as int, b.center.y as int, b.size.y as int)
}

/// Doubled offset, along one axis, from the point of the interval
/// `(cb, sb)` closest to `ca` to `ca` itself.
pub open spec fn offset_1d(ca: int, cb: int, sb: int) -> int {
    2 * ca - clamp(2 * ca, 2 * cb - sb, 2 * cb + sb)
}

/// The side picked from an offset: the axis with the larger absolute offset
/// wins; on a tie the sign of the vertical offset picks Top or Bottom.
pub open spec fn side_of_offset(ox: int, oy: int) -> Collision {
    if abs(ox) > abs(oy) {
        if ox < 0 {
            Collision::Left
        } else {
            Collision::Right
        }
    } else if oy > 0 {
        Collision::Top
    } else {
        Collision::Bottom
    }
}

/// The side on which `this` hits `other`, found from the offset between the
/// center of `this` and the point of `other` closest to it; none when the
/// rectangles do not overlap.
pub open spec fn collision_side(this: Rect, other: Rect) -> Option<Collision> {
    if rects_overlap(this, other) {
        Some(
            side_of_offset(
                offset_1d(this.center.x as int, other.center.x as int, other.size.x as int),
                offset_1d(this.center.y as int, other.center.y as int, other.size.y as int),
            ),
        )
    } else {
        None
    }
}

/// `|x|` on the wide integer type.
fn abs_i128(v: i128) -> (r: i128)
    requires
        v > i128::MIN,
    ensures
        r == abs(v as int),
{
    if v < 0 {
        -v
    } else {
        v
    }
}

/// Overlap of two intervals along one axis, on (possibly moved) centers.
pub(crate) fn overlap_axis(ca: i128, sa: i64, cb: i128, sb: i64) -> (r: bool)
    requires
        -coord_bound() < ca < coord_bound(),
        -coord_bound() < cb < coord_bound(),
    ensures
        r == overlap_1d(ca as int, sa as int, cb as int, sb as int),
{
    let d = abs_i128(ca - cb);
    2 * d < sa as i128 + sb as i128
}

/// Doubled offset along one axis from the closest point of `(cb, sb)` to `ca`.
fn axis_offset(ca: i64, cb: i64, sb: i64) -> (r: i128)
    ensures
        r == offset_1d(ca as int, cb as int, sb as int),
        -coord_bound() < r < coord_bound(),
{
    let p = 2 * ca as i128;
    let lo = 2 * cb as i128 - sb as i128;
    let hi = 2 * cb as i128 + sb as i128;
    let closest = if p < lo {
        lo
    } else if p > hi {
        hi
    } else {
        p
    };
    p - closest
}

/// Whether the two rectangles overlap (strictly: touching edges do not count).
pub fn overlaps(a: &Rect, b: &Rect) -> (r: bool)
    ensures
        r == rects_overlap(*a, *b),
{
    overlap_axis(a.center.x as i128, a.size.x, b.center.x as i128, b.size.x)
        && overlap_axis(a.center.y as i128, a.size.y, b.center.y as i128, b.size.y)
}

/// The side on which `this` collides with `other`, or `None` when they do not
/// overlap.
pub fn collide_with_side(this: &Rect, other: &Rect) -> (r: Option<Collision>)
    requires
        this.wf(),
        other.wf(),
    ensures
        r == collision_side(*this, *other),
{
    if !overlaps(this, other) {
        return None;
    }
    let ox = axis_offset(this.center.x, other.center.x, other.size.x);
    let oy = axis_offset(this.center.y, other.center.y, other.size.y);
    let side = if abs_i128(ox) > abs_i128(oy) {
        if ox < 0 {
            Collision::Left
        } else {
            Collision::Right
        }
    } else if oy > 0 {
        Collision::Top
    } else {
        Collision::Bottom
    };
    Some(side)
}

/// Rectangles that do not overlap never collide.
pub proof fn lemma_no_overlap_no_collision(a: Rect, b: Rect)
    requires
        !rects_overlap(a, b),
    ensures
        collision_side(a, b) is None,
{
}

/// Overlapping rectangles always yield exactly one side, and it is Left or
/// Right exactly when the horizontal offset is the larger in magnitude.
pub proof fn lemma_overlap_one_side(a: Rect, b: Rect)
    requires
        rects_overlap(a, b),
    ensures
        collision_side(a, b) is Some,
        ({
            let ox = offset_1d(a.center.x as int, b.center.x as int, b.size.x as int);
            let oy = offset_1d(a.center.y as int, b.center.y as int, b.size.y as int);
            let side = collision_side(a, b)->Some_0;
            (side == Collision::Left || side == Collision::Right) <==> abs(ox) > abs(oy)
        }),
{
}

} // verus!
