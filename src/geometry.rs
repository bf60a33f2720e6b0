//! Points, rectangles, colors and fixed-point directions.
use vstd::prelude::*;

verus! {

/// Largest magnitude of a world coordinate or a rectangle extent.
pub const COORD_LIMIT: i64 = 0x100_0000_0000;

/// The fixed-point value that stands for 1.0 in a direction's components.
pub const DIR_ONE: i64 = 0x1_0000;

/// A point in world units.
#[derive(Clone, Copy, Debug, PartialEq, Eq, Structural)]
pub struct Point {
    pub x: i64,
    pub y: i64,
}

/// An axis-aligned rectangle: left edge `x`, top edge `y`, width `w`, height `h`.
#[derive(Clone, Copy, Debug, PartialEq, Eq, Structural)]
pub struct Rect {
    pub x: i64,
    pub y: i64,
    pub w: i64,
    pub h: i64,
}

/// An RGBA color with 8-bit channels.
#[derive(Clone, Copy, Debug, PartialEq, Eq, Structural)]
pub struct Color {
    pub r: u8,
    pub g: u8,
    pub b: u8,
    pub a: u8,
}

/// A direction as a fixed-point vector: `(dx, dy) / DIR_ONE` approximates
/// `(cos a, sin a)` for the angle `a` it was made from.
#[derive(Clone, Copy, Debug, PartialEq, Eq, Structural)]
pub struct Direction {
    pub dx: i64,
    pub dy: i64,
}

pub open spec fn coord_ok(v: int) -> bool {
    -COORD_LIMIT <= v <= COORD_LIMIT
}

impl Point {
    pub open spec fn wf(&self) -> bool {
        coord_ok(self.x as int) && coord_ok(self.y as int)
    }
}

impl Rect {
    /// Corner within the coordinate range and extents positive and in range.
    pub open spec fn wf(&self) -> bool {
        coord_ok(self.x as int) && coord_ok(self.y as int) && 0 < self.w <= COORD_LIMIT && 0
            < self.h <= COORD_LIMIT
    }
}

impl Direction {
    pub open spec fn wf(&self) -> bool {
        -DIR_ONE <= self.dx <= DIR_ONE && -DIR_ONE <= self.dy <= DIR_ONE
    }
}

impl Color {
    pub fn new(r: u8, g: u8, b: u8, a: u8) -> (c: Color)
        ensures
            c == (Color { r, g, b, a }),
    {
        Color { r, g, b, a }
    }
}

/// Left and top edges inclusive, right and bottom edges exclusive.
pub open spec fn contains(r: Rect, p: Point) -> bool {
    r.x <= p.x < r.x + r.w && r.y <= p.y < r.y + r.h
}

/// Whether `point` lies inside `rect`.
pub fn point_in_rect(point: Point, rect: &Rect) -> (r: bool)
    requires
        rect.wf(),
    ensures
        r == contains(*rect, point),
{
    rect.x <= point.x && rect.y <= point.y && rect.x + rect.w > point.x && rect.y + rect.h
        > point.y
}

/// `a / b` rounded down, for a positive divisor.
pub fn floor_div(a: i64, b: i64) -> (r: i64)
    requires
        0 < b <= 0x4000_0000_0000_0000,
        -0x4000_0000_0000_0000 <= a <= 0x4000_0000_0000_0000,
    ensures
        r == (a as int) / (b as int),
        a >= 0 ==> 0 <= r <= a,
        a < 0 ==> a <= r < 0,
{
    if a >= 0 {
        let q = a / b;
        assert(q <= a) by (nonlinear_arith)
            requires
                a >= 0,
                b > 0,
                q == a / b,
        ;
        q
    } else {
        let n = -a + (b - 1);
        let q = n / b;
        assert(-q == (a as int) / (b as int) && a <= -q < 0) by (nonlinear_arith)
            requires
                a < 0,
                b > 0,
                n == -a + (b - 1),
                q == n / b,
        ;
        -q
    }
}

} // verus!
