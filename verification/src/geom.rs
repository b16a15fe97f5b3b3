//! Axis-aligned rectangles and the overlap predicate every collision test uses.

use vstd::prelude::*;

verus! {

/// Axis-aligned box in screen space: origin at the top-left corner,
/// `w` to the right and `h` downwards.
#[derive(Clone, Copy, PartialEq, Eq, Structural, Debug)]
pub struct Rect {
    pub x: i64,
    pub y: i64,
    pub w: i64,
    pub h: i64,
}

/// The corner sums a rectangle's tests compute stay inside `i64`.
pub open spec fn rect_sums_fit(r: Rect) -> bool {
    &&& i64::MIN <= r.x + r.w <= i64::MAX
    &&& i64::MIN <= r.y + r.h <= i64::MAX
}

/// Two boxes overlap when both their x-ranges and their y-ranges, taken as
/// closed intervals, have a common point; touching edges count.
pub open spec fn rect_overlap(a: Rect, b: Rect) -> bool {
    &&& a.x <= b.x + b.w
    &&& b.x <= a.x + a.w
    &&& a.y <= b.y + b.h
    &&& b.y <= a.y + a.h
}

/// A point lies in a box, edges included.
pub open spec fn rect_contains(r: Rect, px: int, py: int) -> bool {
    &&& r.x <= px <= r.x + r.w
    &&& r.y <= py <= r.y + r.h
}

/// Overlap test on two boxes.
pub fn is_collision(a: &Rect, b: &Rect) -> (r: bool)
    requires
        rect_sums_fit(*a),
        rect_sums_fit(*b),
    ensures
        r == rect_overlap(*a, *b),
{
    a.x <= b.x + b.w && b.x <= a.x + a.w && a.y <= b.y + b.h && b.y <= a.y + a.h
}

/// Point-in-box test.
pub fn contains_point(r: &Rect, px: i64, py: i64) -> (c: bool)
    requires
        rect_sums_fit(*r),
    ensures
        c == rect_contains(*r, px as int, py as int),
{
    px >= r.x && px <= r.x + r.w && py >= r.y && py <= r.y + r.h
}

} // verus!
