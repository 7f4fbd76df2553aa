//! The process-wide state of the window manager, passed by reference into
//! every controller.

use vstd::prelude::*;
use crate::metrics::DEFAULT_SNAP_THRESHOLD;

verus! {

/// A deferred replacement of one window's content: the window and an
/// opaque token by which the host finds the content builder.
#[derive(Clone, Copy, Debug, PartialEq, Eq, Structural)]
pub struct ContentUpdate {
    pub window_entity: usize,
    pub builder: u64,
}

/// The context object of the window manager.
pub struct WindowManager {
    /// The z-index that the next focus or creation hands out.
    pub next_z_index: i32,
    /// Snap distance in pixels.
    pub snap_threshold: i32,
    pub is_dragging_window: bool,
    pub is_resizing_window: bool,
    /// The one window that a drag or a resize is moving, if any.
    pub dragging_window_entity: Option<usize>,
    /// Content replacements waiting for the flush step, oldest first.
    pub pending_content_updates: Vec<ContentUpdate>,
}

impl WindowManager {
    /// The state of a manager that has not seen any window yet.
    pub open spec fn is_fresh(self) -> bool {
        &&& self.next_z_index == 1
        &&& self.snap_threshold == DEFAULT_SNAP_THRESHOLD
        &&& !self.is_dragging_window
        &&& !self.is_resizing_window
        &&& self.dragging_window_entity is None
        &&& self.pending_content_updates@ == Seq::<ContentUpdate>::empty()
    }

    /// Another z-index can be handed out.
    pub open spec fn can_raise(self) -> bool {
        self.next_z_index < i32::MAX
    }

    /// Run-time test of [`WindowManager::can_raise`].
    pub fn check_can_raise(&self) -> (ok: bool)
        ensures
            ok == self.can_raise(),
    {
        self.next_z_index < i32::MAX
    }
}

impl Default for WindowManager {
    fn default() -> (m: WindowManager)
        ensures
            m.is_fresh(),
    {
        WindowManager {
            next_z_index: 1,
            snap_threshold: DEFAULT_SNAP_THRESHOLD,
            is_dragging_window: false,
            is_resizing_window: false,
            dragging_window_entity: None,
            pending_content_updates: Vec::new(),
        }
    }
}

/// Queues a replacement of the content of `window_entity`; nothing else
/// changes until the flush step.
pub fn update_window_content(
    window_manager: &mut WindowManager,
    window_entity: usize,
    content_builder: u64,
)
    ensures
        final(window_manager).pending_content_updates@ == old(
            window_manager,
        ).pending_content_updates@.push(
            ContentUpdate { window_entity, builder: content_builder },
        ),
        final(window_manager).next_z_index == old(window_manager).next_z_index,
        final(window_manager).snap_threshold == old(window_manager).snap_threshold,
        final(window_manager).is_dragging_window == old(window_manager).is_dragging_window,
        final(window_manager).is_resizing_window == old(window_manager).is_resizing_window,
        final(window_manager).dragging_window_entity == old(window_manager).dragging_window_entity,
{
    window_manager.pending_content_updates.push(
        ContentUpdate { window_entity, builder: content_builder },
    );
}

} // verus!
