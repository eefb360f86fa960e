//! Rectangles in screen coordinates.

use vstd::prelude::*;

verus! {

/// Whether a coordinate can be held in 32 bits.
pub open spec fn fits(coordinate: int) -> bool {
    i32::MIN <= coordinate <= i32::MAX
}

/// Whether a coordinate can be held in 32 bits.
pub fn is_in_range(coordinate: i64) -> (r: bool)
    ensures
        r == fits(coordinate as int),
{
    i32::MIN as i64 <= coordinate && coordinate <= i32::MAX as i64
}

/// A rectangle given by its four edges, in pixels.
#[derive(PartialEq, Eq, Structural, Clone, Copy, Debug)]
pub struct Rect {
    pub left: i32,
    pub top: i32,
    pub right: i32,
    pub bottom: i32,
}

/// How far each edge of a rectangle is moved outwards, in pixels.
#[derive(PartialEq, Eq, Structural, Clone, Copy, Debug)]
pub struct RectDelta {
    pub left: i32,
    pub top: i32,
    pub right: i32,
    pub bottom: i32,
}

impl Rect {
    /// Distance between the left and the right edge.
    pub open spec fn spec_width(self) -> int {
        self.right - self.left
    }

    /// Distance between the top and the bottom edge.
    pub open spec fn spec_height(self) -> int {
        self.bottom - self.top
    }

    /// Whether no edge leaves the coordinate range when each is moved inwards
    /// by `amount`.
    pub open spec fn inset_fits(self, amount: int) -> bool {
        &&& fits(self.left + amount)
        &&& fits(self.top + amount)
        &&& fits(self.right - amount)
        &&& fits(self.bottom - amount)
    }

    /// Whether every edge of `other`, moved inwards by `amount`, is at or
    /// inside the same edge of this rectangle.
    pub open spec fn encloses_inset(self, other: Rect, amount: int) -> bool {
        &&& self.left <= other.left + amount
        &&& self.top <= other.top + amount
        &&& self.right >= other.right - amount
        &&& self.bottom >= other.bottom - amount
    }

    /// Makes a rectangle from its four edges.
    pub fn from_ltrb(left: i32, top: i32, right: i32, bottom: i32) -> (r: Rect)
        ensures
            r == (Rect { left, top, right, bottom }),
    {
        Rect { left, top, right, bottom }
    }

    /// Makes a rectangle from its top left corner and its size.
    pub fn from_xy(x: i32, y: i32, width: i32, height: i32) -> (r: Rect)
        requires
            fits(x + width),
            fits(y + height),
        ensures
            r.left == x,
            r.top == y,
            r.right == x + width,
            r.bottom == y + height,
    {
        Rect { left: x, top: y, right: x + width, bottom: y + height }
    }

    /// Distance between the left and the right edge, however far apart they
    /// are.
    pub fn wide_width(&self) -> (r: i64)
        ensures
            r == self.spec_width(),
    {
        self.right as i64 - self.left as i64
    }

    /// Distance between the top and the bottom edge, however far apart they
    /// are.
    pub fn wide_height(&self) -> (r: i64)
        ensures
            r == self.spec_height(),
    {
        self.bottom as i64 - self.top as i64
    }

    /// Whether no edge leaves the coordinate range when each is moved inwards
    /// by `amount`.
    pub fn is_inset_in_range(&self, amount: i32) -> (r: bool)
        ensures
            r == self.inset_fits(amount as int),
    {
        is_in_range(self.left as i64 + amount as i64) && is_in_range(
            self.top as i64 + amount as i64,
        ) && is_in_range(self.right as i64 - amount as i64) && is_in_range(
            self.bottom as i64 - amount as i64,
        )
    }

    /// Distance between the left and the right edge.
    pub fn width(&self) -> (r: i32)
        requires
            fits(self.spec_width()),
        ensures
            r == self.spec_width(),
    {
        self.right - self.left
    }

    /// Distance between the top and the bottom edge.
    pub fn height(&self) -> (r: i32)
        requires
            fits(self.spec_height()),
        ensures
            r == self.spec_height(),
    {
        self.bottom - self.top
    }

    /// The rectangle with every edge moved inwards by `amount`, or outwards
    /// where `amount` is negative.
    pub fn inset(&self, amount: i32) -> (r: Rect)
        requires
            self.inset_fits(amount as int),
        ensures
            r.left == self.left + amount,
            r.top == self.top + amount,
            r.right == self.right - amount,
            r.bottom == self.bottom - amount,
    {
        Rect {
            left: self.left + amount,
            top: self.top + amount,
            right: self.right - amount,
            bottom: self.bottom - amount,
        }
    }

    /// Whether no edge of `other` lies outside this rectangle.
    pub fn contains_rect(&self, other: &Rect) -> (r: bool)
        ensures
            r == self.encloses_inset(*other, 0),
    {
        self.left <= other.left && self.top <= other.top && self.right >= other.right
            && self.bottom >= other.bottom
    }
}

} // verus!
