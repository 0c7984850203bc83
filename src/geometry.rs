//! Canvas coordinates, colours and the nearness test used to pick vertices.

use vstd::prelude::*;

verus! {

/// A pointer within this distance (exclusive) of a vertex selects it.
pub const NEAR_RADIUS: i64 = 15;

/// A point on the canvas, in whole canvas units.
#[derive(Clone, Copy, Debug, PartialEq, Eq)]
pub struct Point {
    pub x: i32,
    pub y: i32,
}

impl Point {
    pub fn new(x: i32, y: i32) -> (r: Point)
        ensures
            r.x == x,
            r.y == y,
    {
        Point { x, y }
    }
}

/// A display colour, four channels of eight bits.
#[derive(Clone, Copy, Debug, PartialEq, Eq)]
pub struct Rgba {
    pub r: u8,
    pub g: u8,
    pub b: u8,
    pub a: u8,
}

/// Fully opaque white, the colour given to every new vertex and edge.
pub open spec fn opaque_white() -> Rgba {
    Rgba { r: 255, g: 255, b: 255, a: 255 }
}

impl Rgba {
    pub fn white() -> (c: Rgba)
        ensures
            c == opaque_white(),
    {
        Rgba { r: 255, g: 255, b: 255, a: 255 }
    }
}

/// Squared Euclidean distance between two points.
pub open spec fn dist_sq(p: Point, q: Point) -> int {
    (p.x - q.x) * (p.x - q.x) + (p.y - q.y) * (p.y - q.y)
}

/// `p` lies strictly within `NEAR_RADIUS` of `q`.
pub open spec fn is_near(p: Point, q: Point) -> bool {
    dist_sq(p, q) < NEAR_RADIUS * NEAR_RADIUS
}

/// Whether the distance between `p` and `q` is strictly less than `NEAR_RADIUS`.
pub fn near(p: Point, q: Point) -> (r: bool)
    ensures
        r == is_near(p, q),
{
    let dx: i64 = p.x as i64 - q.x as i64;
    let dy: i64 = p.y as i64 - q.y as i64;
    if dx <= -NEAR_RADIUS || dx >= NEAR_RADIUS || dy <= -NEAR_RADIUS || dy >= NEAR_RADIUS {
        proof {
            assert(dx * dx >= 0 && dy * dy >= 0) by (nonlinear_arith);
            assert(dx * dx >= 225 || dy * dy >= 225) by (nonlinear_arith)
                requires
                    dx <= -15 || dx >= 15 || dy <= -15 || dy >= 15,
            ;
        }
        false
    } else {
        proof {
            assert(dx * dx < 225 && dy * dy < 225) by (nonlinear_arith)
                requires
                    -15 < dx < 15,
                    -15 < dy < 15,
            ;
            assert(dx * dx >= 0 && dy * dy >= 0) by (nonlinear_arith);
        }
        dx * dx + dy * dy < NEAR_RADIUS * NEAR_RADIUS
    }
}

} // verus!
