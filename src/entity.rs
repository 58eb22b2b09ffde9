//! Entity handles and plane geometry.

use vstd::prelude::*;

verus! {

/// An opaque handle to an entity of the network store.
///
/// Handles are never reused: once an entity is despawned, its handle stays
/// stale for the lifetime of the store.
#[derive(Clone, Copy, PartialEq, Eq, Structural, Debug, Hash)]
pub struct EntityId {
    pub index: u32,
}

impl EntityId {
    /// The handle with the given raw index.
    pub fn from_raw(index: u32) -> (r: EntityId)
        ensures
            r.index == index,
    {
        EntityId { index }
    }
}

/// A point of the world plane, in world units.
#[derive(Clone, Copy, PartialEq, Eq, Structural, Debug, Hash)]
pub struct Point {
    pub x: i32,
    pub y: i32,
}

/// An offset between two points, such as the facing of a growth tip.
///
/// It is kept unnormalized: its direction is what it means, and the zero
/// offset stands for "no direction".
#[derive(Clone, Copy, PartialEq, Eq, Structural, Debug, Hash)]
pub struct Offset {
    pub dx: i64,
    pub dy: i64,
}

impl Point {
    pub fn new(x: i32, y: i32) -> (r: Point)
        ensures
            r.x == x,
            r.y == y,
    {
        Point { x, y }
    }

    pub open spec fn origin_spec() -> Point {
        Point { x: 0, y: 0 }
    }

    /// The world origin.
    pub fn origin() -> (r: Point)
        ensures
            r == Point::origin_spec(),
    {
        Point { x: 0, y: 0 }
    }
}

/// The squared Euclidean distance between two points.
pub open spec fn dist_sq(a: Point, b: Point) -> int {
    (a.x - b.x) * (a.x - b.x) + (a.y - b.y) * (a.y - b.y)
}

pub proof fn lemma_dist_sq_symmetric(a: Point, b: Point)
    ensures
        dist_sq(a, b) == dist_sq(b, a),
{
    assert((a.x - b.x) * (a.x - b.x) == (b.x - a.x) * (b.x - a.x)) by (nonlinear_arith);
    assert((a.y - b.y) * (a.y - b.y) == (b.y - a.y) * (b.y - a.y)) by (nonlinear_arith);
}

/// The offset that leads from `from` to `to`.
pub open spec fn offset_between(from: Point, to: Point) -> Offset {
    Offset { dx: (to.x - from.x) as i64, dy: (to.y - from.y) as i64 }
}

/// Squared distance between `a` and `b`, computed exactly.
pub fn distance_squared(a: Point, b: Point) -> (r: u128)
    ensures
        r == dist_sq(a, b),
{
    let dx: i64 = a.x as i64 - b.x as i64;
    let dy: i64 = a.y as i64 - b.y as i64;
    let ax: u128 = if dx < 0 { (-dx) as u128 } else { dx as u128 };
    let ay: u128 = if dy < 0 { (-dy) as u128 } else { dy as u128 };
    assert(ax * ax == dx * dx) by (nonlinear_arith)
        requires ax == dx || ax == -dx;
    assert(ay * ay == dy * dy) by (nonlinear_arith)
        requires ay == dy || ay == -dy;
    assert(ax * ax < 0x1_0000_0000_0000_0000) by (nonlinear_arith)
        requires ax < 0x1_0000_0000;
    assert(ay * ay < 0x1_0000_0000_0000_0000) by (nonlinear_arith)
        requires ay < 0x1_0000_0000;
    ax * ax + ay * ay
}

/// Whether `cursor` lies within `radius` of `tip`; the boundary counts.
pub fn is_cursor_near_tip(cursor: Point, tip: Point, radius: u32) -> (r: bool)
    ensures
        r == (dist_sq(tip, cursor) <= radius * radius),
{
    let r128: u128 = radius as u128;
    assert(r128 * r128 < 0x1_0000_0000_0000_0000) by (nonlinear_arith)
        requires r128 < 0x1_0000_0000;
    let rr: u128 = r128 * r128;
    distance_squared(tip, cursor) <= rr
}

/// The offset from `from` to `to`.
pub fn offset(from: Point, to: Point) -> (r: Offset)
    ensures
        r == offset_between(from, to),
{
    Offset { dx: to.x as i64 - from.x as i64, dy: to.y as i64 - from.y as i64 }
}

} // verus!
