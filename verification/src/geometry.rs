//! Points, axis-aligned rectangles and the containment test between them.

use vstd::prelude::*;

verus! {

/// A position, or an extent, on the world grid.
#[derive(Clone, Copy, Debug, PartialEq, Eq, Structural)]
pub struct Point {
    pub x: i64,
    pub y: i64,
}

/// An axis-aligned rectangle, given by half its width and half its height.
///
/// A rectangle has no position of its own: it is placed by the origin it is
/// tested against.
#[derive(Clone, Copy, Debug, PartialEq, Eq, Structural)]
pub struct Rectangle {
    pub half_size: Point,
}

/// The distance between two coordinates on one axis.
pub open spec fn axis_distance(a: int, b: int) -> int {
    if a >= b {
        a - b
    } else {
        b - a
    }
}

/// Whether `point` lies in the closed region that `rectangle` covers when it
/// is centred on `rect_origin`: on each axis the point is no further from the
/// origin than the half extent.
pub open spec fn point_in_rectangle(point: Point, rect_origin: Point, rectangle: Rectangle) -> bool {
    &&& axis_distance(point.x as int, rect_origin.x as int) <= rectangle.half_size.x
    &&& axis_distance(point.y as int, rect_origin.y as int) <= rectangle.half_size.y
}

impl Point {
    /// The point at which both coordinates are zero.
    pub fn zero() -> (p: Point)
        ensures
            p.x == 0,
            p.y == 0,
    {
        Point { x: 0, y: 0 }
    }
}

impl Rectangle {
    /// Whether the rectangle covers any point at all: neither half extent is
    /// negative.
    pub open spec fn is_inhabited(&self) -> bool {
        self.half_size.x >= 0 && self.half_size.y >= 0
    }
}

/// Tests whether `point` lies within `rectangle` centred on `rect_origin`,
/// the boundary included.
pub fn is_point_in_rectangle(point: Point, rect_origin: Point, rectangle: &Rectangle) -> (inside: bool)
    ensures
        inside == point_in_rectangle(point, rect_origin, *rectangle),
{
    let dx: i128 = point.x as i128 - rect_origin.x as i128;
    let dy: i128 = point.y as i128 - rect_origin.y as i128;
    let abs_dx: i128 = if dx < 0 { -dx } else { dx };
    let abs_dy: i128 = if dy < 0 { -dy } else { dy };
    abs_dx <= rectangle.half_size.x as i128 && abs_dy <= rectangle.half_size.y as i128
}

/// The boundary belongs to the rectangle: the corner that lies a full half
/// extent from the origin on both axes is contained, as long as the rectangle
/// covers anything at all.
pub proof fn lemma_corner_is_contained(point: Point, rect_origin: Point, rectangle: Rectangle)
    requires
        rectangle.is_inhabited(),
        point.x == rect_origin.x + rectangle.half_size.x,
        point.y == rect_origin.y + rectangle.half_size.y,
    ensures
        point_in_rectangle(point, rect_origin, rectangle),
{
}

/// Nothing past the boundary belongs to the rectangle: a point level with
/// the origin but further out than the half width, by however little, is not
/// contained.
pub proof fn lemma_beyond_edge_is_outside(
    point: Point,
    rect_origin: Point,
    rectangle: Rectangle,
    excess: int,
)
    requires
        excess > 0,
        point.x == rect_origin.x + rectangle.half_size.x + excess,
        point.y == rect_origin.y,
    ensures
        !point_in_rectangle(point, rect_origin, rectangle),
{
}

/// Containment depends on the distance from the origin only, not on the
/// side: a point and its mirror image across the origin, on the horizontal
/// axis, the vertical axis or both, are contained alike.
pub proof fn lemma_containment_is_mirror_symmetric(
    point: Point,
    mirrored: Point,
    rect_origin: Point,
    rectangle: Rectangle,
)
    requires
        mirrored.x == point.x || mirrored.x == 2 * rect_origin.x - point.x,
        mirrored.y == point.y || mirrored.y == 2 * rect_origin.y - point.y,
    ensures
        point_in_rectangle(mirrored, rect_origin, rectangle) == point_in_rectangle(
            point,
            rect_origin,
            rectangle,
        ),
{
}

/// A rectangle with a negative half extent covers no point, wherever it is
/// placed.
pub proof fn lemma_uninhabited_contains_nothing(
    point: Point,
    rect_origin: Point,
    rectangle: Rectangle,
)
    requires
        !rectangle.is_inhabited(),
    ensures
        !point_in_rectangle(point, rect_origin, rectangle),
{
}

} // verus!
