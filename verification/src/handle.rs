//! The grip a pointer gesture holds a window by, and what that grip lets
//! each axis of the window do.

use vstd::prelude::*;

verus! {

/// One of the eight resize hit-regions, or the sentinel that marks a
/// title-bar drag.
#[derive(Clone, Copy, Debug, PartialEq, Eq, Structural)]
pub enum ResizeHandle {
    TopLeft,
    TopRight,
    BottomLeft,
    BottomRight,
    Top,
    Bottom,
    Left,
    Right,
    /// Not a resize at all: the whole window follows the pointer.
    DragSentinel,
}

/// The low (left or top) or high (right or bottom) edge of one axis.
#[derive(Clone, Copy, Debug, PartialEq, Eq, Structural)]
pub enum Side {
    Low,
    High,
}

/// What a gesture may do to one axis of a window.
#[derive(Clone, Copy, Debug, PartialEq, Eq, Structural)]
pub enum AxisRule {
    /// Neither edge moves.
    Fixed,
    /// The low edge moves, the high edge is the anchor.
    MoveLow,
    /// The high edge moves, the low edge is the anchor.
    MoveHigh,
    /// Both edges move together; the length is kept.
    Slide,
}

impl AxisRule {
    /// The gesture can carry `side` to a new coordinate.
    pub open spec fn moves(self, side: Side) -> bool {
        match self {
            AxisRule::Fixed => false,
            AxisRule::MoveLow => side == Side::Low,
            AxisRule::MoveHigh => side == Side::High,
            AxisRule::Slide => true,
        }
    }

    /// `side` belongs to a corner that the gesture holds: either the
    /// gesture moves it, or it does not act on this axis at all.
    pub open spec fn touches(self, side: Side) -> bool {
        self == AxisRule::Fixed || self.moves(side)
    }

    /// Computes [`AxisRule::moves`].
    pub fn can_move(&self, side: Side) -> (r: bool)
        ensures
            r == self.moves(side),
    {
        match self {
            AxisRule::Fixed => false,
            AxisRule::MoveLow => side == Side::Low,
            AxisRule::MoveHigh => side == Side::High,
            AxisRule::Slide => true,
        }
    }

    /// Computes [`AxisRule::touches`].
    pub fn can_touch(&self, side: Side) -> (r: bool)
        ensures
            r == self.touches(side),
    {
        match self {
            AxisRule::Fixed => true,
            AxisRule::MoveLow => side == Side::Low,
            AxisRule::MoveHigh => side == Side::High,
            AxisRule::Slide => true,
        }
    }
}

impl ResizeHandle {
    /// The edit rule of the horizontal axis, keyed by handle.
    pub open spec fn horizontal_rule(self) -> AxisRule {
        match self {
            ResizeHandle::TopLeft | ResizeHandle::BottomLeft | ResizeHandle::Left => {
                AxisRule::MoveLow
            },
            ResizeHandle::TopRight | ResizeHandle::BottomRight | ResizeHandle::Right => {
                AxisRule::MoveHigh
            },
            ResizeHandle::Top | ResizeHandle::Bottom => AxisRule::Fixed,
            ResizeHandle::DragSentinel => AxisRule::Slide,
        }
    }

    /// The edit rule of the vertical axis, keyed by handle.
    pub open spec fn vertical_rule(self) -> AxisRule {
        match self {
            ResizeHandle::TopLeft | ResizeHandle::TopRight | ResizeHandle::Top => {
                AxisRule::MoveLow
            },
            ResizeHandle::BottomLeft | ResizeHandle::BottomRight | ResizeHandle::Bottom => {
                AxisRule::MoveHigh
            },
            ResizeHandle::Left | ResizeHandle::Right => AxisRule::Fixed,
            ResizeHandle::DragSentinel => AxisRule::Slide,
        }
    }

    /// The handle marks a drag, not a resize.
    pub open spec fn is_drag(self) -> bool {
        self == ResizeHandle::DragSentinel
    }

    /// Computes [`ResizeHandle::horizontal_rule`].
    pub fn rule_x(&self) -> (r: AxisRule)
        ensures
            r == self.horizontal_rule(),
    {
        match self {
            ResizeHandle::TopLeft | ResizeHandle::BottomLeft | ResizeHandle::Left => {
                AxisRule::MoveLow
            },
            ResizeHandle::TopRight | ResizeHandle::BottomRight | ResizeHandle::Right => {
                AxisRule::MoveHigh
            },
            ResizeHandle::Top | ResizeHandle::Bottom => AxisRule::Fixed,
            ResizeHandle::DragSentinel => AxisRule::Slide,
        }
    }

    /// Computes [`ResizeHandle::vertical_rule`].
    pub fn rule_y(&self) -> (r: AxisRule)
        ensures
            r == self.vertical_rule(),
    {
        match self {
            ResizeHandle::TopLeft | ResizeHandle::TopRight | ResizeHandle::Top => {
                AxisRule::MoveLow
            },
            ResizeHandle::BottomLeft | ResizeHandle::BottomRight | ResizeHandle::Bottom => {
                AxisRule::MoveHigh
            },
            ResizeHandle::Left | ResizeHandle::Right => AxisRule::Fixed,
            ResizeHandle::DragSentinel => AxisRule::Slide,
        }
    }

    /// Computes [`ResizeHandle::is_drag`].
    pub fn marks_drag(&self) -> (r: bool)
        ensures
            r == self.is_drag(),
    {
        match self {
            ResizeHandle::DragSentinel => true,
            _ => false,
        }
    }
}

} // verus!
