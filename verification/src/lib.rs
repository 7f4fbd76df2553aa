//! A floating-window manager core: the lifecycle, the geometry and the
//! interaction state of draggable, resizable, collapsible, minimizable
//! and maximizable windows, all in whole pixels.
//!
//! The host supplies, once per frame, the pointer interactions, the
//! cursor, the button state and the screen size; [`plugin::WindowPlugin`]
//! runs every controller once in a fixed order and leaves in the
//! [`registry::WindowRegistry`] where each window is, how large it is, in
//! which order it draws and which of its parts show.
//!
//! * [`snap`] is the snap solver, a pure function.
//! * [`min_size`] derives a window's minimum size from its chrome and
//!   its content.
//! * [`registry`], [`chrome`] and [`lifecycle`] own the windows and their
//!   chrome from creation to close.
//! * [`drag`] and [`resize`] move and resize one window at a time.
//! * [`window`], [`transitions`], [`slots`] and [`taskbar`] are collapse,
//!   maximize and minimize.
//! * [`zorder`] hands out z-indices.
//! * [`router`] turns pointer interactions into events.
//! * [`invariants`] states what holds between any two frames.
//!
//! A request that names no live window changes nothing. A step whose
//! numbers lie outside the range that pixel arithmetic supports (see
//! [`geometry::PIXEL_LIMIT`]) changes nothing either.
//!
//! [`shared`], [`schema`] and [`mapping`] hold the names and the id maps
//! of the simulation whose scene the windows lie over.

pub mod chrome;
pub mod drag;
pub mod events;
pub mod geometry;
pub mod gesture;
pub mod handle;
pub mod invariants;
pub mod layout;
pub mod lifecycle;
pub mod manager;
pub mod mapping;
pub mod metrics;
pub mod min_size;
pub mod output;
pub mod plugin;
pub mod registry;
pub mod resize;
pub mod router;
pub mod schema;
pub mod shared;
pub mod slots;
pub mod snap;
pub mod taskbar;
pub mod transitions;
pub mod visibility;
pub mod window;
pub mod zorder;
