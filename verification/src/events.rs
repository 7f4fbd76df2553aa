//! The domain events that the interaction router emits and the
//! controllers consume within one frame.

use vstd::prelude::*;
use crate::geometry::Vec2;
use crate::handle::ResizeHandle;

verus! {

/// The close button of `window_entity` was released.
#[derive(Clone, Copy, Debug, PartialEq, Eq, Structural)]
pub struct WindowCloseEvent {
    pub window_entity: usize,
}

/// The minimize button of `window_entity` was released.
#[derive(Clone, Copy, Debug, PartialEq, Eq, Structural)]
pub struct WindowMinimizeEvent {
    pub window_entity: usize,
}

/// The maximize button of `window_entity` was released.
#[derive(Clone, Copy, Debug, PartialEq, Eq, Structural)]
pub struct WindowMaximizeEvent {
    pub window_entity: usize,
}

/// The collapse button of `window_entity` was released.
#[derive(Clone, Copy, Debug, PartialEq, Eq, Structural)]
pub struct WindowCollapseEvent {
    pub window_entity: usize,
}

/// `window_entity` is to come to the front.
#[derive(Clone, Copy, Debug, PartialEq, Eq, Structural)]
pub struct WindowFocusEvent {
    pub window_entity: usize,
}

/// A drag starts on `window_entity`.
#[derive(Clone, Copy, Debug, PartialEq, Eq, Structural)]
pub struct WindowDragEvent {
    pub window_entity: usize,
    pub position: Vec2,
    pub drag_offset: Vec2,
    pub drag_handle: Option<ResizeHandle>,
}

/// A resize starts on `window_entity`, held by `drag_handle`, with the
/// cursor at `position` and the window of the given size.
#[derive(Clone, Copy, Debug, PartialEq, Eq, Structural)]
pub struct WindowResizeEvent {
    pub window_entity: usize,
    pub position: Vec2,
    pub size: Vec2,
    pub drag_handle: ResizeHandle,
}

/// New content was attached below `window_entity`.
#[derive(Clone, Copy, Debug, PartialEq, Eq, Structural)]
pub struct WindowContentUpdateEvent {
    pub window_entity: usize,
    pub new_content: usize,
}

} // verus!
