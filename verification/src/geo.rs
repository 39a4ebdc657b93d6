//! Plain geometry values: points, sizes and line segments.

use vstd::prelude::*;

pub mod raw;
pub mod rect;

verus! {

/// A position on the integer grid, `x` growing to the right and `y` downwards.
#[derive(Debug, Clone, Copy, PartialEq, Eq, Structural)]
pub struct Point {
    pub x: i32,
    pub y: i32,
}

/// A non-negative extent in each direction.
#[derive(Debug, Clone, Copy, PartialEq, Eq, Structural)]
pub struct Size {
    pub width: u32,
    pub height: u32,
}

/// A segment from `start` to `end`, both ends included.
#[derive(Debug, Clone, Copy, PartialEq, Eq, Structural)]
pub struct Line {
    pub start: Point,
    pub end: Point,
}

} // verus!
