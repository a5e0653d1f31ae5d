//! Points and rectangles on the integer pixel grid.

use vstd::prelude::*;

verus! {

/// The largest coordinate and the largest side that [`Rect::new`] lets
/// through: half the largest 32-bit number, so that the far side of a
/// rectangle is a 32-bit number too.
pub const MAX_INT_VALUE: i32 = 1073741823;

/// The least coordinate that [`Rect::new`] lets through.
pub const MIN_INT_VALUE: i32 = -1073741824;

/// A point on the pixel grid.
#[derive(Clone, Copy, Debug, PartialEq, Eq, Structural)]
pub struct Point {
    pub x: i32,
    pub y: i32,
}

/// A rectangle on the pixel grid: `w` columns to the right of `x` and `h` rows
/// below `y`.
#[derive(Clone, Copy, Debug, PartialEq, Eq, Structural)]
pub struct Rect {
    pub x: i32,
    pub y: i32,
    pub w: i32,
    pub h: i32,
}

/// `value`, or the nearest coordinate that a rectangle may have.
pub open spec fn clamp_position(value: i32) -> i32 {
    if value > MAX_INT_VALUE {
        MAX_INT_VALUE
    } else if value < MIN_INT_VALUE {
        MIN_INT_VALUE
    } else {
        value
    }
}

/// `value`, or the nearest side that a rectangle may have: at least one
/// pixel.
pub open spec fn clamp_size(value: u32) -> i32 {
    if value == 0 {
        1
    } else if value > MAX_INT_VALUE {
        MAX_INT_VALUE
    } else {
        value as i32
    }
}

impl Point {
    /// The point `(x, y)`, with each coordinate brought into the range that
    /// rectangles keep to.
    pub fn new(x: i32, y: i32) -> (point: Self)
        ensures
            point == (Point { x: clamp_position(x), y: clamp_position(y) }),
    {
        Point { x: position_in_range(x), y: position_in_range(y) }
    }
}

impl Rect {
    /// The rectangle of `width` by `height` pixels whose top left corner is
    /// `(x, y)`, with each value brought into the range that keeps the far
    /// sides within 32 bits. A side of no pixels becomes a side of one.
    pub fn new(x: i32, y: i32, width: u32, height: u32) -> (rect: Self)
        ensures
            rect == (Rect { x: clamp_position(x), y: clamp_position(y), w: clamp_size(width), h: clamp_size(height) }),
            MIN_INT_VALUE <= rect.x <= MAX_INT_VALUE,
            MIN_INT_VALUE <= rect.y <= MAX_INT_VALUE,
            1 <= rect.w <= MAX_INT_VALUE,
            1 <= rect.h <= MAX_INT_VALUE,
    {
        Rect { x: position_in_range(x), y: position_in_range(y), w: size_in_range(width), h: size_in_range(height) }
    }

    /// The column of the left side.
    pub fn left(&self) -> (left: i32)
        ensures
            left == self.x,
    {
        self.x
    }

    /// The column behind the right side.
    pub fn right(&self) -> (right: i64)
        ensures
            right == self.x + self.w,
    {
        self.x as i64 + self.w as i64
    }

    /// The row of the top side.
    pub fn top(&self) -> (top: i32)
        ensures
            top == self.y,
    {
        self.y
    }

    /// The row below the bottom side.
    pub fn bottom(&self) -> (bottom: i64)
        ensures
            bottom == self.y + self.h,
    {
        self.y as i64 + self.h as i64
    }
}

fn position_in_range(value: i32) -> (r: i32)
    ensures
        r == clamp_position(value),
{
    if value > MAX_INT_VALUE {
        MAX_INT_VALUE
    } else if value < MIN_INT_VALUE {
        MIN_INT_VALUE
    } else {
        value
    }
}

fn size_in_range(value: u32) -> (r: i32)
    ensures
        r == clamp_size(value),
{
    if value == 0 {
        1
    } else if value > MAX_INT_VALUE as u32 {
        MAX_INT_VALUE
    } else {
        value as i32
    }
}

} // verus!
