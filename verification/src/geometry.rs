//! Integer pixel geometry shared by every controller.
//!
//! Positions and sizes are whole screen pixels. Every stored coordinate is
//! expected to stay within [`PIXEL_LIMIT`] so that the handful of sums a
//! controller forms in one step always fit the machine integer.

use vstd::prelude::*;

verus! {

/// Largest magnitude of a stored coordinate, of a screen extent, of a cursor
/// coordinate and of a snap threshold.
pub const PIXEL_LIMIT: i32 = 16_777_216;

/// Largest magnitude of a proposed (not yet accepted) coordinate: a
/// stored coordinate moved by one cursor delta.
pub const REACH_LIMIT: i32 = 67_108_864;

/// A pair of pixel coordinates: a position (top-left corner) or a size.
#[derive(Clone, Copy, Debug, PartialEq, Eq, Structural)]
pub struct Vec2 {
    pub x: i32,
    pub y: i32,
}

impl Vec2 {
    /// Both coordinates lie within `bound` of zero.
    pub open spec fn within(self, bound: int) -> bool {
        &&& -bound <= self.x <= bound
        &&& -bound <= self.y <= bound
    }

    /// Both coordinates lie within [`PIXEL_LIMIT`] of zero.
    pub open spec fn in_range(self) -> bool {
        self.within(PIXEL_LIMIT as int)
    }

    /// Both coordinates are non-negative and within [`PIXEL_LIMIT`].
    pub open spec fn is_extent(self) -> bool {
        &&& 0 <= self.x <= PIXEL_LIMIT
        &&& 0 <= self.y <= PIXEL_LIMIT
    }

    /// The pair of the two coordinates.
    pub fn new(x: i32, y: i32) -> (v: Vec2)
        ensures
            v.x == x,
            v.y == y,
    {
        Vec2 { x, y }
    }

    /// The origin, also the empty size.
    pub fn zero() -> (v: Vec2)
        ensures
            v.x == 0,
            v.y == 0,
    {
        Vec2 { x: 0, y: 0 }
    }

    /// Run-time test of [`Vec2::in_range`].
    pub fn check_in_range(&self) -> (ok: bool)
        ensures
            ok == self.in_range(),
    {
        -PIXEL_LIMIT <= self.x && self.x <= PIXEL_LIMIT && -PIXEL_LIMIT <= self.y && self.y
            <= PIXEL_LIMIT
    }

    /// Run-time test of [`Vec2::is_extent`].
    pub fn check_is_extent(&self) -> (ok: bool)
        ensures
            ok == self.is_extent(),
    {
        0 <= self.x && self.x <= PIXEL_LIMIT && 0 <= self.y && self.y <= PIXEL_LIMIT
    }
}

/// An axis-aligned rectangle given by its top-left corner and its size.
#[derive(Clone, Copy, Debug, PartialEq, Eq, Structural)]
pub struct Rect {
    pub position: Vec2,
    pub size: Vec2,
}

impl Rect {
    /// The x coordinate of the left edge.
    pub open spec fn left(self) -> int {
        self.position.x as int
    }

    /// The x coordinate just past the right edge.
    pub open spec fn right(self) -> int {
        self.position.x + self.size.x
    }

    /// The y coordinate of the top edge.
    pub open spec fn top(self) -> int {
        self.position.y as int
    }

    /// The y coordinate just past the bottom edge.
    pub open spec fn bottom(self) -> int {
        self.position.y + self.size.y
    }

    /// Position and size are stored coordinates.
    pub open spec fn in_range(self) -> bool {
        self.position.in_range() && self.size.in_range()
    }

    /// A proposal: position and size may have been moved by one cursor
    /// delta.
    pub open spec fn in_reach(self) -> bool {
        self.position.within(REACH_LIMIT as int) && self.size.within(REACH_LIMIT as int)
    }

    /// The rectangle of the given size at the given position.
    pub fn new(position: Vec2, size: Vec2) -> (r: Rect)
        ensures
            r.position == position,
            r.size == size,
    {
        Rect { position, size }
    }

    /// Run-time test of [`Rect::in_range`].
    pub fn check_in_range(&self) -> (ok: bool)
        ensures
            ok == self.in_range(),
    {
        self.position.check_in_range() && self.size.check_in_range()
    }
}

/// The value `v` held to the interval from zero to `hi`; zero where the
/// interval is empty, so the lower bound always wins.
pub open spec fn clamp_to_extent(v: int, hi: int) -> int {
    if v < 0 || hi < 0 {
        0
    } else if v > hi {
        hi
    } else {
        v
    }
}

/// Computes [`clamp_to_extent`].
pub fn clamp_extent(v: i32, hi: i32) -> (r: i32)
    ensures
        r == clamp_to_extent(v as int, hi as int),
{
    if v < 0 || hi < 0 {
        0
    } else if v > hi {
        hi
    } else {
        v
    }
}

/// The larger of two pixel values.
pub open spec fn max_int(a: int, b: int) -> int {
    if a >= b {
        a
    } else {
        b
    }
}

/// The smaller of two pixel values.
pub open spec fn min_int(a: int, b: int) -> int {
    if a <= b {
        a
    } else {
        b
    }
}

/// Computes [`max_int`].
pub fn max_i32(a: i32, b: i32) -> (r: i32)
    ensures
        r == max_int(a as int, b as int),
{
    if a >= b {
        a
    } else {
        b
    }
}

/// Computes [`min_int`].
pub fn min_i32(a: i32, b: i32) -> (r: i32)
    ensures
        r == min_int(a as int, b as int),
{
    if a <= b {
        a
    } else {
        b
    }
}

} // verus!
