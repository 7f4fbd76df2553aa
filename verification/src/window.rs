//! The window record and its three state transitions.
//!
//! A transition is a function of the record alone (and of the screen, the
//! taskbar slot and the z-order counter where it needs them): it does not
//! look at other windows. The registry applies it to the window an event
//! names.

use vstd::prelude::*;
use crate::geometry::Vec2;
use crate::handle::ResizeHandle;
use crate::metrics::{TASKBAR_CHIP_HEIGHT, TASKBAR_CHIP_WIDTH, TITLE_BAR_HEIGHT};
use crate::taskbar::{calculate_minimize_position, chip_in_range, slot_x, slot_y};

verus! {

/// The placement mode that the layout collaborator is told about.
#[derive(Clone, Copy, Debug, PartialEq, Eq, Structural)]
pub enum WindowState {
    Normal,
    Minimized,
    Maximized,
    Fullscreen,
    Static,
}

/// One floating window.
#[derive(Debug, Clone)]
pub struct Window {
    pub title: String,
    pub size: Vec2,
    pub position: Vec2,
    pub z_index: i32,
    pub state: WindowState,
    pub drag_offset: Vec2,
    /// `None` at rest, `Some(DragSentinel)` while dragged, `Some(handle)`
    /// while resized by that handle.
    pub drag_handle: Option<ResizeHandle>,
    pub is_collapsed: bool,
    pub uncollapsed_size: Vec2,
    pub is_maximized: bool,
    pub pre_maximized_size: Vec2,
    pub pre_maximized_position: Vec2,
    pub is_minimized: bool,
    pub pre_minimized_size: Vec2,
    pub pre_minimized_position: Vec2,
    pub minimize_slot: Option<usize>,
}

impl Default for Window {
    fn default() -> (w: Window)
        ensures
            w.title@ == "Window"@,
            w == Window::fresh(w.title, Vec2 { x: 800, y: 600 }, Vec2 { x: 100, y: 100 }, 0),
    {
        Window {
            title: "Window".to_owned(),
            size: Vec2 { x: 800, y: 600 },
            position: Vec2 { x: 100, y: 100 },
            z_index: 0,
            state: WindowState::Normal,
            drag_offset: Vec2 { x: 0, y: 0 },
            drag_handle: None,
            is_collapsed: false,
            uncollapsed_size: Vec2 { x: 800, y: 600 },
            is_maximized: false,
            pre_maximized_size: Vec2 { x: 800, y: 600 },
            pre_maximized_position: Vec2 { x: 100, y: 100 },
            is_minimized: false,
            pre_minimized_size: Vec2 { x: 800, y: 600 },
            pre_minimized_position: Vec2 { x: 100, y: 100 },
            minimize_slot: None,
        }
    }
}

impl Window {
    /// A window in its normal state, at rest, with the given title, size,
    /// position and z-index. Its saved geometries are those of the
    /// default window, whatever its own.
    pub open spec fn fresh(title: String, size: Vec2, position: Vec2, z_index: i32) -> Window {
        Window {
            title,
            size,
            position,
            z_index,
            state: WindowState::Normal,
            drag_offset: Vec2 { x: 0, y: 0 },
            drag_handle: None,
            is_collapsed: false,
            uncollapsed_size: Vec2 { x: 800, y: 600 },
            is_maximized: false,
            pre_maximized_size: Vec2 { x: 800, y: 600 },
            pre_maximized_position: Vec2 { x: 100, y: 100 },
            is_minimized: false,
            pre_minimized_size: Vec2 { x: 800, y: 600 },
            pre_minimized_position: Vec2 { x: 100, y: 100 },
            minimize_slot: None,
        }
    }

    /// Builds [`Window::fresh`].
    pub fn new(title: &str, size: Vec2, position: Vec2, z_index: i32) -> (w: Window)
        ensures
            w.title@ == title@,
            w == Window::fresh(w.title, size, position, z_index),
    {
        Window {
            title: title.to_owned(),
            size,
            position,
            z_index,
            state: WindowState::Normal,
            drag_offset: Vec2 { x: 0, y: 0 },
            drag_handle: None,
            is_collapsed: false,
            uncollapsed_size: Vec2 { x: 800, y: 600 },
            is_maximized: false,
            pre_maximized_size: Vec2 { x: 800, y: 600 },
            pre_maximized_position: Vec2 { x: 100, y: 100 },
            is_minimized: false,
            pre_minimized_size: Vec2 { x: 800, y: 600 },
            pre_minimized_position: Vec2 { x: 100, y: 100 },
            minimize_slot: None,
        }
    }

    /// In at most one of the collapsed, the maximized and the minimized
    /// state.
    pub open spec fn at_rest(self) -> bool {
        &&& !(self.is_maximized && self.is_minimized)
        &&& !(self.is_collapsed && self.is_maximized)
        &&& !(self.is_collapsed && self.is_minimized)
    }

    /// The window takes part in a drag: neither maximized nor minimized.
    pub open spec fn draggable(self) -> bool {
        !self.is_maximized && !self.is_minimized
    }

    /// The window takes part in a resize: in none of the three states.
    pub open spec fn resizable(self) -> bool {
        !self.is_collapsed && !self.is_maximized && !self.is_minimized
    }

    /// The record after a collapse request. A maximized or minimized
    /// window ignores the request.
    pub open spec fn collapse_toggled(self) -> Window {
        if self.is_maximized || self.is_minimized {
            self
        } else if !self.is_collapsed {
            Window {
                is_collapsed: true,
                uncollapsed_size: self.size,
                size: Vec2 { x: self.size.x, y: TITLE_BAR_HEIGHT },
                ..self
            }
        } else {
            Window { is_collapsed: false, size: self.uncollapsed_size, ..self }
        }
    }

    /// The size that the window has when it is not collapsed.
    pub open spec fn expanded_size(self) -> Vec2 {
        if self.is_collapsed {
            self.uncollapsed_size
        } else {
            self.size
        }
    }

    /// The record after a maximize request on a screen of the given size.
    /// A minimized window ignores the request. A collapsed window is
    /// uncollapsed first, so that a later restore brings back its full
    /// size.
    pub open spec fn maximize_toggled(self, screen: Vec2) -> Window {
        if self.is_minimized {
            self
        } else if !self.is_maximized {
            Window {
                is_maximized: true,
                pre_maximized_size: self.expanded_size(),
                pre_maximized_position: self.position,
                is_collapsed: false,
                position: Vec2 { x: 0, y: 0 },
                size: screen,
                state: WindowState::Maximized,
                ..self
            }
        } else {
            Window {
                is_maximized: false,
                position: self.pre_maximized_position,
                size: self.pre_maximized_size,
                state: WindowState::Normal,
                ..self
            }
        }
    }

    /// The record after a minimize request. Going down, the window leaves
    /// the maximized and the collapsed state and takes the chip of `slot`;
    /// coming back, it takes `next_z_index` and so the front.
    pub open spec fn minimize_toggled(
        self,
        slot: usize,
        screen: Vec2,
        next_z_index: i32,
    ) -> Window {
        if !self.is_minimized {
            Window {
                is_minimized: true,
                pre_minimized_size: self.size,
                pre_minimized_position: self.position,
                is_maximized: false,
                is_collapsed: false,
                minimize_slot: Some(slot),
                position: Vec2 {
                    x: slot_x(slot as int, screen.x as int) as i32,
                    y: slot_y(slot as int, screen) as i32,
                },
                size: Vec2 { x: TASKBAR_CHIP_WIDTH, y: TASKBAR_CHIP_HEIGHT },
                state: WindowState::Minimized,
                ..self
            }
        } else {
            Window {
                is_minimized: false,
                position: self.pre_minimized_position,
                size: self.pre_minimized_size,
                state: WindowState::Normal,
                minimize_slot: None,
                z_index: next_z_index,
                ..self
            }
        }
    }

    /// The record after a focus request.
    pub open spec fn focused(self, next_z_index: i32) -> Window {
        Window { z_index: next_z_index, ..self }
    }

    /// Collapses the window to its title bar, or expands it again; does
    /// nothing to a maximized or minimized window.
    pub fn toggle_collapse(&mut self)
        ensures
            *final(self) == old(self).collapse_toggled(),
    {
        if self.is_maximized || self.is_minimized {
            return ;
        }
        self.is_collapsed = !self.is_collapsed;
        if self.is_collapsed {
            self.uncollapsed_size = self.size;
            self.size.y = TITLE_BAR_HEIGHT;
        } else {
            self.size = self.uncollapsed_size;
        }
    }

    /// Maximizes the window to the whole screen, or restores it; does
    /// nothing to a minimized window.
    pub fn toggle_maximize(&mut self, screen: Vec2)
        ensures
            *final(self) == old(self).maximize_toggled(screen),
    {
        if self.is_minimized {
            return ;
        }
        self.is_maximized = !self.is_maximized;
        if self.is_maximized {
            if self.is_collapsed {
                self.is_collapsed = false;
                self.size = self.uncollapsed_size;
            }
            self.pre_maximized_size = self.size;
            self.pre_maximized_position = self.position;
            self.position = Vec2 { x: 0, y: 0 };
            self.size = screen;
            self.state = WindowState::Maximized;
        } else {
            self.position = self.pre_maximized_position;
            self.size = self.pre_maximized_size;
            self.state = WindowState::Normal;
        }
    }

    /// Minimizes the window into the taskbar chip of `slot`, or restores
    /// it and gives it `next_z_index`.
    pub fn toggle_minimize(&mut self, slot: usize, screen: Vec2, next_z_index: i32)
        requires
            !old(self).is_minimized ==> chip_in_range(slot as int, screen),
        ensures
            *final(self) == old(self).minimize_toggled(slot, screen, next_z_index),
    {
        self.is_minimized = !self.is_minimized;
        if self.is_minimized {
            self.pre_minimized_size = self.size;
            self.pre_minimized_position = self.position;
            if self.is_maximized {
                self.is_maximized = false;
                self.size = self.pre_maximized_size;
                self.position = self.pre_maximized_position;
            }
            if self.is_collapsed {
                self.is_collapsed = false;
                self.size = self.uncollapsed_size;
            }
            self.minimize_slot = Some(slot);
            if let Some(chip) = calculate_minimize_position(slot, screen.x, screen.y) {
                self.position = chip;
            }
            self.size = Vec2 { x: TASKBAR_CHIP_WIDTH, y: TASKBAR_CHIP_HEIGHT };
            self.state = WindowState::Minimized;
        } else {
            self.position = self.pre_minimized_position;
            self.size = self.pre_minimized_size;
            self.state = WindowState::Normal;
            self.minimize_slot = None;
            self.z_index = next_z_index;
        }
    }
}

/// Collapsing and then expanding a window brings back its size exactly.
pub proof fn lemma_collapse_round_trip(w: Window)
    requires
        w.resizable(),
    ensures
        w.collapse_toggled().is_collapsed,
        !w.collapse_toggled().collapse_toggled().is_collapsed,
        w.collapse_toggled().collapse_toggled().size == w.size,
        w.collapse_toggled().collapse_toggled().position == w.position,
{
}

/// Maximizing and then restoring a window brings back its position and
/// its size exactly, whatever the screen sizes at the two moments. For a
/// window that was collapsed, the size brought back is its full size.
pub proof fn lemma_maximize_round_trip(w: Window, screen: Vec2, later_screen: Vec2)
    requires
        !w.is_maximized,
        !w.is_minimized,
    ensures
        w.maximize_toggled(screen).is_maximized,
        !w.maximize_toggled(screen).is_collapsed,
        !w.maximize_toggled(screen).maximize_toggled(later_screen).is_maximized,
        w.maximize_toggled(screen).maximize_toggled(later_screen).size == w.expanded_size(),
        !w.is_collapsed ==> w.maximize_toggled(screen).maximize_toggled(later_screen).size
            == w.size,
        w.maximize_toggled(screen).maximize_toggled(later_screen).position == w.position,
{
}

/// Minimizing and then restoring a window brings back its size and its
/// position exactly, and frees its slot.
pub proof fn lemma_minimize_round_trip(
    w: Window,
    slot: usize,
    screen: Vec2,
    z: i32,
    later_slot: usize,
    later_screen: Vec2,
    later_z: i32,
)
    requires
        !w.is_minimized,
    ensures
        w.minimize_toggled(slot, screen, z).is_minimized,
        w.minimize_toggled(slot, screen, z).minimize_slot == Some(slot),
        !w.minimize_toggled(slot, screen, z).minimize_toggled(
            later_slot,
            later_screen,
            later_z,
        ).is_minimized,
        w.minimize_toggled(slot, screen, z).minimize_toggled(later_slot, later_screen, later_z).size
            == w.size,
        w.minimize_toggled(slot, screen, z).minimize_toggled(
            later_slot,
            later_screen,
            later_z,
        ).position == w.position,
        w.minimize_toggled(slot, screen, z).minimize_toggled(
            later_slot,
            later_screen,
            later_z,
        ).minimize_slot is None,
        w.minimize_toggled(slot, screen, z).minimize_toggled(
            later_slot,
            later_screen,
            later_z,
        ).z_index == later_z,
{
}

/// Every request leaves a window in at most one of the collapsed, the
/// maximized and the minimized state.
pub proof fn lemma_requests_keep_one_state(w: Window, slot: usize, screen: Vec2, z: i32)
    requires
        w.at_rest(),
    ensures
        w.collapse_toggled().at_rest(),
        w.maximize_toggled(screen).at_rest(),
        w.minimize_toggled(slot, screen, z).at_rest(),
        w.focused(z).at_rest(),
{
}

/// A maximized or minimized window ignores a collapse request, and a
/// minimized window ignores a maximize request.
pub proof fn lemma_requests_ignored(w: Window, screen: Vec2)
    ensures
        w.is_maximized || w.is_minimized ==> w.collapse_toggled() == w,
        w.is_minimized ==> w.maximize_toggled(screen) == w,
{
}

} // verus!
