//! What the layout collaborator is told about each window after a frame:
//! where it is, how large it is, in which order it draws, and whether
//! its content and its resize handles show.

use vstd::prelude::*;
use crate::geometry::Vec2;
use crate::layout::Visibility;
use crate::registry::{is_window, window_of, Role, UiEntity, WindowRegistry};

verus! {

/// The placement of one window.
#[derive(Clone, Copy, Debug, PartialEq, Eq, Structural)]
pub struct WindowLayout {
    pub window_entity: usize,
    /// Top-left corner in screen pixels.
    pub position: Vec2,
    pub size: Vec2,
    /// The draw order of the window's root; higher draws on top.
    pub render_order: i32,
    /// No live content area of the window is hidden.
    pub content_visible: bool,
    /// No live resize handle of the window is hidden.
    pub handles_visible: bool,
}

/// `e` is a live content area of `window` and hidden.
pub open spec fn is_hidden_content(s: Seq<UiEntity>, window: usize, e: int) -> bool {
    &&& 0 <= e < s.len()
    &&& s[e].alive
    &&& s[e].role matches Role::ContentArea(_, area)
    &&& area.window_entity == window
    &&& s[e].visibility == Visibility::Hidden
}

/// `e` is a live resize handle of `window` and hidden.
pub open spec fn is_hidden_handle(s: Seq<UiEntity>, window: usize, e: int) -> bool {
    &&& 0 <= e < s.len()
    &&& s[e].alive
    &&& s[e].role matches Role::ResizeHandle(_, owner)
    &&& owner.window_entity == window
    &&& s[e].visibility == Visibility::Hidden
}

/// The placement of window `w`.
pub open spec fn layout_of(s: Seq<UiEntity>, w: int) -> WindowLayout {
    WindowLayout {
        window_entity: w as usize,
        position: window_of(s, w).position,
        size: window_of(s, w).size,
        render_order: s[w].z_index,
        content_visible: forall|e: int| !#[trigger] is_hidden_content(s, w as usize, e),
        handles_visible: forall|e: int| !#[trigger] is_hidden_handle(s, w as usize, e),
    }
}

/// The placements of the live windows among the first `n` entities, in
/// the order of the arena.
pub open spec fn layouts_before(s: Seq<UiEntity>, n: int) -> Seq<WindowLayout>
    decreases n,
{
    if n <= 0 {
        Seq::empty()
    } else if is_window(s, n - 1) {
        layouts_before(s, n - 1).push(layout_of(s, n - 1))
    } else {
        layouts_before(s, n - 1)
    }
}

fn parts_visible(registry: &WindowRegistry, window_entity: usize) -> (r: (bool, bool))
    ensures
        r.0 == forall|e: int| !#[trigger] is_hidden_content(registry.entities@, window_entity, e),
        r.1 == forall|e: int| !#[trigger] is_hidden_handle(registry.entities@, window_entity, e),
{
    let mut content_visible = true;
    let mut handles_visible = true;
    let mut e: usize = 0;
    while e < registry.entities.len()
        invariant
            e <= registry.entities.len(),
            content_visible == forall|k: int|
                0 <= k < e ==> !#[trigger] is_hidden_content(registry.entities@, window_entity, k),
            handles_visible == forall|k: int|
                0 <= k < e ==> !#[trigger] is_hidden_handle(registry.entities@, window_entity, k),
        decreases registry.entities.len() - e,
    {
        let entity = &registry.entities[e];
        if entity.alive && matches!(entity.visibility, Visibility::Hidden) {
            match &entity.role {
                Role::ContentArea(_, area) => {
                    if area.window_entity == window_entity {
                        content_visible = false;
                        assert(is_hidden_content(registry.entities@, window_entity, e as int));
                    }
                },
                Role::ResizeHandle(_, owner) => {
                    if owner.window_entity == window_entity {
                        handles_visible = false;
                        assert(is_hidden_handle(registry.entities@, window_entity, e as int));
                    }
                },
                _ => {},
            }
        }
        e = e + 1;
    }
    (content_visible, handles_visible)
}

/// The placement of every live window, in the order of the arena.
pub fn window_layouts(registry: &WindowRegistry) -> (layouts: Vec<WindowLayout>)
    ensures
        layouts@ == layouts_before(registry.entities@, registry.entities.len() as int),
{
    let mut layouts: Vec<WindowLayout> = Vec::new();
    let mut w: usize = 0;
    while w < registry.entities.len()
        invariant
            w <= registry.entities.len(),
            layouts@ == layouts_before(registry.entities@, w as int),
        decreases registry.entities.len() - w,
    {
        let geometry = match registry.window(w) {
            Some(record) => Some((record.position, record.size)),
            None => None,
        };
        if let Some((position, size)) = geometry {
            let visible = parts_visible(registry, w);
            layouts.push(
                WindowLayout {
                    window_entity: w,
                    position,
                    size,
                    render_order: registry.entities[w].z_index,
                    content_visible: visible.0,
                    handles_visible: visible.1,
                },
            );
        }
        w = w + 1;
    }
    layouts
}

} // verus!
