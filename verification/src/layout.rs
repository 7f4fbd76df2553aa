//! The layout attributes of a UI node that the window manager reads or
//! writes. The layout collaborator owns everything else about a node.

use vstd::prelude::*;

verus! {

/// A length in the layout collaborator's terms.
#[derive(Clone, Copy, Debug, PartialEq, Eq, Structural)]
pub enum Val {
    Auto,
    Px(i32),
    Percent(i32),
}

/// The main axis along which a node lays out its children.
#[derive(Clone, Copy, Debug, PartialEq, Eq, Structural)]
pub enum FlexDirection {
    Row,
    Column,
    RowReverse,
    ColumnReverse,
}

/// Whether a node is drawn.
#[derive(Clone, Copy, Debug, PartialEq, Eq, Structural)]
pub enum Visibility {
    Inherited,
    Hidden,
    Visible,
}

/// Placement and sizing of one node.
#[derive(Clone, Copy, Debug, PartialEq, Eq, Structural)]
pub struct Node {
    pub left: Val,
    pub top: Val,
    pub width: Val,
    pub height: Val,
    pub min_width: Val,
    pub flex_direction: FlexDirection,
}

impl Node {
    /// A node that leaves every length to the layout collaborator and
    /// lays its children out in a row.
    pub open spec fn plain() -> Node {
        Node {
            left: Val::Auto,
            top: Val::Auto,
            width: Val::Auto,
            height: Val::Auto,
            min_width: Val::Auto,
            flex_direction: FlexDirection::Row,
        }
    }

    /// A node of fixed size at a fixed place inside its parent.
    pub open spec fn placed(left: int, top: int, width: int, height: int) -> Node {
        Node {
            left: Val::Px(left as i32),
            top: Val::Px(top as i32),
            width: Val::Px(width as i32),
            height: Val::Px(height as i32),
            ..Node::plain()
        }
    }

    /// The width that the node asks for in pixels: its width if that is
    /// given in pixels, else its minimum width if that is, else nothing.
    pub open spec fn requested_width(self) -> int {
        match self.width {
            Val::Px(w) => w as int,
            _ => match self.min_width {
                Val::Px(m) => m as int,
                _ => 0,
            },
        }
    }

    /// Computes [`Node::requested_width`].
    pub fn width_request(&self) -> (w: i32)
        ensures
            w == self.requested_width(),
    {
        match self.width {
            Val::Px(w) => w,
            _ => match self.min_width {
                Val::Px(m) => m,
                _ => 0,
            },
        }
    }

    /// Builds [`Node::placed`].
    pub fn at(left: i32, top: i32, width: i32, height: i32) -> (n: Node)
        ensures
            n == Node::placed(left as int, top as int, width as int, height as int),
    {
        Node {
            left: Val::Px(left),
            top: Val::Px(top),
            width: Val::Px(width),
            height: Val::Px(height),
            min_width: Val::Auto,
            flex_direction: FlexDirection::Row,
        }
    }
}

impl Default for Node {
    fn default() -> (n: Node)
        ensures
            n == Node::plain(),
    {
        Node {
            left: Val::Auto,
            top: Val::Auto,
            width: Val::Auto,
            height: Val::Auto,
            min_width: Val::Auto,
            flex_direction: FlexDirection::Row,
        }
    }
}

} // verus!
