//! Points, sizes and line segments.

use vstd::prelude::*;

verus! {

/// A point on the screen, in whole pixels.
#[derive(PartialEq, Eq, Structural, Clone, Copy, Debug)]
pub struct Point {
    pub x: i32,
    pub y: i32,
}

impl Point {
    pub fn new(x: i32, y: i32) -> (r: Self)
        ensures
            r.x == x,
            r.y == y,
    {
        Self { x, y }
    }
}

/// A point in fixed-point coordinates: thousandths of a pixel.
#[derive(PartialEq, Eq, Structural, Clone, Copy, Debug)]
pub struct PointF {
    pub x: i64,
    pub y: i64,
}

impl PointF {
    pub fn new(x: i64, y: i64) -> (r: Self)
        ensures
            r.x == x,
            r.y == y,
    {
        Self { x, y }
    }
}

/// Width and length of a vehicle or a signal, in whole pixels.
#[derive(PartialEq, Eq, Structural, Clone, Copy, Debug)]
pub struct Dimen {
    pub width: i32,
    pub length: i32,
}

impl Dimen {
    pub fn new(width: i32, length: i32) -> (r: Self)
        ensures
            r.width == width,
            r.length == length,
    {
        Self { width, length }
    }
}

/// A coloured line segment of the road markings.
#[derive(Debug)]
pub struct Line {
    pub start: Point,
    pub end: Point,
    pub color: (u8, u8, u8),
}

} // verus!
