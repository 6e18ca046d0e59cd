//! Points on the board and the two containment tests: a point against a
//! circle, and a point against an axis-aligned rectangle. Both tests are
//! strict, so a point on a boundary belongs to no zone.

use vstd::prelude::*;

verus! {

/// A position on the board, in whole board units.
#[derive(Clone, Copy, Debug, PartialEq, Eq, Structural)]
pub struct Point {
    pub x: i32,
    pub y: i32,
}

/// The square of the distance between two points.
pub open spec fn distance_squared(a: Point, b: Point) -> int {
    (a.x - b.x) * (a.x - b.x) + (a.y - b.y) * (a.y - b.y)
}

/// Whether `point` lies inside the circle: its distance from `center` is
/// less than `radius`. Stated over squares, which orders distances the same
/// way because neither side is negative.
pub open spec fn spec_circle_contains(center: Point, radius: u32, point: Point) -> bool {
    distance_squared(point, center) < radius * radius
}

/// Whether `point` lies inside the rectangle: its `x` strictly between
/// `center.x - width / 2` and `center.x + width / 2`, and its `y` strictly
/// between `center.y - height / 2` and `center.y + height / 2`. Stated
/// with both sides doubled, so that an odd extent loses no half unit.
pub open spec fn spec_rect_contains(center: Point, width: u32, height: u32, point: Point) -> bool {
    &&& 2 * center.x - width < 2 * point.x < 2 * center.x + width
    &&& 2 * center.y - height < 2 * point.y < 2 * center.y + height
}

/// The square of a value whose magnitude fits in 33 bits fits in 66.
proof fn lemma_square_bound(d: int)
    requires
        -0x1_0000_0000 < d < 0x1_0000_0000,
    ensures
        0 <= d * d <= 0x1_0000_0000 * 0x1_0000_0000,
{
    assert(0 <= d * d <= 0x1_0000_0000 * 0x1_0000_0000) by (nonlinear_arith)
        requires
            -0x1_0000_0000 < d < 0x1_0000_0000,
    ;
}

/// Whether `point` lies inside the circle around `center`.
pub fn circle_contains(center: &Point, radius: u32, point: &Point) -> (inside: bool)
    ensures
        inside == spec_circle_contains(*center, radius, *point),
{
    let dx: i128 = point.x as i128 - center.x as i128;
    let dy: i128 = point.y as i128 - center.y as i128;
    let r: i128 = radius as i128;
    proof {
        lemma_square_bound(dx as int);
        lemma_square_bound(dy as int);
        lemma_square_bound(r as int);
    }
    dx * dx + dy * dy < r * r
}

/// Whether `point` lies inside the rectangle around `center`.
pub fn rect_contains(center: &Point, width: u32, height: u32, point: &Point) -> (inside: bool)
    ensures
        inside == spec_rect_contains(*center, width, height, *point),
{
    let cx: i64 = 2 * (center.x as i64);
    let cy: i64 = 2 * (center.y as i64);
    let px: i64 = 2 * (point.x as i64);
    let py: i64 = 2 * (point.y as i64);
    let w: i64 = width as i64;
    let h: i64 = height as i64;
    cx - w < px && px < cx + w && cy - h < py && py < cy + h
}

/// A point whose distance from the centre equals the radius is outside the
/// circle.
pub proof fn lemma_circle_boundary_is_outside(center: Point, radius: u32, point: Point)
    requires
        distance_squared(point, center) == radius * radius,
    ensures
        !spec_circle_contains(center, radius, point),
{
}

/// A point on any of the four edge lines of a rectangle is outside it.
pub proof fn lemma_rect_boundary_is_outside(center: Point, width: u32, height: u32, point: Point)
    requires
        2 * point.x == 2 * center.x - width || 2 * point.x == 2 * center.x + width || 2 * point.y
            == 2 * center.y - height || 2 * point.y == 2 * center.y + height,
    ensures
        !spec_rect_contains(center, width, height, point),
{
}

} // verus!
