//! What the drag and the resize controller share: the pointer sample of
//! a frame, the state a gesture works on, and the obstacles that a moved
//! window snaps to.

use vstd::prelude::*;
use crate::geometry::{Rect, Vec2, PIXEL_LIMIT};
use crate::handle::ResizeHandle;
use crate::manager::WindowManager;
use crate::registry::{is_window, window_of, Role, UiEntity, WindowRegistry};
use crate::snap::obstacles_in_range;

verus! {

/// The pointer as the host sees it in one frame: where the cursor is and
/// how large the screen is.
#[derive(Clone, Copy, Debug, PartialEq, Eq, Structural)]
pub struct Pointer {
    pub cursor: Vec2,
    pub screen: Vec2,
}

impl Pointer {
    /// Cursor and screen are of a size that pixel arithmetic supports.
    pub open spec fn in_range(self) -> bool {
        self.cursor.in_range() && self.screen.is_extent()
    }

    /// Run-time test of [`Pointer::in_range`].
    pub fn check_in_range(&self) -> (ok: bool)
        ensures
            ok == self.in_range(),
    {
        self.cursor.check_in_range() && self.screen.check_is_extent()
    }
}

/// Everything a gesture reads and writes: the arena, the manager, and
/// the cursor position of the frame before.
pub struct GestureState {
    pub entities: Seq<UiEntity>,
    pub manager: WindowManager,
    pub last_cursor: Option<Vec2>,
}

/// The rectangle of window `j`.
pub open spec fn window_rect(s: Seq<UiEntity>, j: int) -> Rect {
    Rect { position: window_of(s, j).position, size: window_of(s, j).size }
}

/// Window `j` is an obstacle for the window `moved`: another live window
/// that is neither maximized nor being dragged itself.
pub open spec fn is_obstacle(s: Seq<UiEntity>, moved: int, j: int) -> bool {
    &&& j != moved
    &&& is_window(s, j)
    &&& !window_of(s, j).is_maximized
    &&& window_of(s, j).drag_handle != Some(ResizeHandle::DragSentinel)
}

/// The rectangles of the obstacles among the first `n` entities, in the
/// order of the arena.
pub open spec fn obstacles_before(s: Seq<UiEntity>, moved: int, n: int) -> Seq<Rect>
    decreases n,
{
    if n <= 0 {
        Seq::empty()
    } else if is_obstacle(s, moved, n - 1) {
        obstacles_before(s, moved, n - 1).push(window_rect(s, n - 1))
    } else {
        obstacles_before(s, moved, n - 1)
    }
}

/// The rectangles that window `moved` snaps to.
pub open spec fn snap_obstacles(s: Seq<UiEntity>, moved: int) -> Seq<Rect> {
    obstacles_before(s, moved, s.len() as int)
}

/// Computes [`snap_obstacles`].
pub fn collect_obstacles(registry: &WindowRegistry, moved: usize) -> (obstacles: Vec<Rect>)
    ensures
        obstacles@ == snap_obstacles(registry.entities@, moved as int),
{
    let mut obstacles: Vec<Rect> = Vec::new();
    let mut j: usize = 0;
    while j < registry.entities.len()
        invariant
            j <= registry.entities.len(),
            obstacles@ == obstacles_before(registry.entities@, moved as int, j as int),
        decreases registry.entities.len() - j,
    {
        if j != moved && registry.entities[j].alive {
            match &registry.entities[j].role {
                Role::Window(w) => {
                    let dragged = match w.drag_handle {
                        Some(ResizeHandle::DragSentinel) => true,
                        _ => false,
                    };
                    if !w.is_maximized && !dragged {
                        obstacles.push(Rect { position: w.position, size: w.size });
                    }
                },
                _ => {},
            }
        }
        j = j + 1;
    }
    obstacles
}

/// Run-time test of [`obstacles_in_range`].
pub fn check_obstacles_in_range(obstacles: &Vec<Rect>) -> (ok: bool)
    ensures
        ok == obstacles_in_range(obstacles@),
{
    let mut i: usize = 0;
    while i < obstacles.len()
        invariant
            i <= obstacles.len(),
            forall|k: int| 0 <= k < i ==> (#[trigger] obstacles@[k]).in_range(),
        decreases obstacles.len() - i,
    {
        if !obstacles[i].check_in_range() {
            return false;
        }
        i = i + 1;
    }
    true
}

/// The snap threshold is one that pixel arithmetic supports.
pub open spec fn threshold_in_range(t: i32) -> bool {
    0 <= t <= PIXEL_LIMIT
}

} // verus!
