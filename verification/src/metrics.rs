//! Fixed measurements of window chrome and of the taskbar.

use vstd::prelude::*;

verus! {

/// Height of a title bar, and so of a collapsed window.
pub const TITLE_BAR_HEIGHT: i32 = 30;

/// Side of a square corner resize handle; thickness of an edge handle.
pub const RESIZE_HANDLE_SIZE: i32 = 8;

/// Size of a minimized window's chip in the taskbar.
pub const TASKBAR_CHIP_WIDTH: i32 = 200;

/// Height of a taskbar chip.
pub const TASKBAR_CHIP_HEIGHT: i32 = 30;

/// Gap around and between taskbar chips.
pub const TASKBAR_MARGIN: i32 = 5;

/// No window may be narrower or lower than this, whatever it holds.
pub const ABSOLUTE_MIN_WIDTH: i32 = 150;

/// Least height of any window: its title bar.
pub const ABSOLUTE_MIN_HEIGHT: i32 = 30;

/// Least height of a content area.
pub const CONTENT_MIN_HEIGHT: i32 = 50;

/// Side of a title-bar button.
pub const BUTTON_SIZE: i32 = 20;

/// Gap between title-bar buttons.
pub const BUTTON_GAP: i32 = 4;

/// Padding inside the title bar and the content area.
pub const CHROME_PADDING: i32 = 8;

/// Least room for the title text.
pub const TITLE_TEXT_MIN_WIDTH: i32 = 50;

/// A title bar needs room for four buttons with three gaps between
/// them, its padding on both sides and the title text.
pub const TITLE_BAR_MIN_WIDTH: i32 = 4 * BUTTON_SIZE + 3 * BUTTON_GAP + 2 * CHROME_PADDING
    + TITLE_TEXT_MIN_WIDTH;

/// Snap distance that a fresh manager starts with.
pub const DEFAULT_SNAP_THRESHOLD: i32 = 4;

} // verus!
