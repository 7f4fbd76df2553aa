//! Collapse, maximize and minimize as the registry applies them: the
//! record changes as [`crate::window`] says, the root node follows the new
//! geometry, and the window's parts are shown or hidden.
//!
//! A request that names no live window changes nothing. A window is in
//! at most one of the three states at a time: a maximized or minimized
//! window ignores a collapse request, a minimized window ignores a
//! maximize request, and a window that is maximized or minimized leaves
//! its former state first.

use vstd::prelude::*;
use crate::events::{WindowCollapseEvent, WindowMaximizeEvent, WindowMinimizeEvent};
use crate::geometry::{Vec2, PIXEL_LIMIT};
use crate::layout::{Node, Val};
use crate::manager::WindowManager;
use crate::metrics::TITLE_BAR_HEIGHT;
use crate::registry::{is_window, window_of, Role, UiEntity, WindowRegistry};
use crate::slots::{
    find_first_free_slot, first_free_slot, lemma_some_first_free, slots_distinct, taskbar_slot,
};
use crate::taskbar::{calculate_minimize_position, chip_in_range, lemma_low_slots_in_range};
use crate::visibility::{children_shown, handles_shown, hide_resize_handles, hide_window_children};
use crate::window::Window;

verus! {

/// The node with another size.
pub open spec fn node_sized(n: Node, size: Vec2) -> Node {
    Node { width: Val::Px(size.x), height: Val::Px(size.y), ..n }
}

/// The node with another place and size.
pub open spec fn node_placed(n: Node, position: Vec2, size: Vec2) -> Node {
    Node {
        left: Val::Px(position.x),
        top: Val::Px(position.y),
        width: Val::Px(size.x),
        height: Val::Px(size.y),
        ..n
    }
}

/// The arena with another record and node for window `id`.
pub open spec fn with_record(s: Seq<UiEntity>, id: int, w: Window, node: Node) -> Seq<UiEntity> {
    s.update(id, UiEntity { role: Role::Window(w), node, ..s[id] })
}

/// A collapse request for `id` is carried out: `id` is a live window
/// that is neither maximized nor minimized.
pub open spec fn can_collapse(s: Seq<UiEntity>, id: int) -> bool {
    is_window(s, id) && !window_of(s, id).is_maximized && !window_of(s, id).is_minimized
}

/// A maximize request for `id` is carried out: `id` is a live window
/// that is not minimized.
pub open spec fn can_maximize(s: Seq<UiEntity>, id: int) -> bool {
    is_window(s, id) && !window_of(s, id).is_minimized
}

/// The arena after a collapse request for `id`.
pub open spec fn collapsed(s: Seq<UiEntity>, id: int) -> Seq<UiEntity> {
    if !can_collapse(s, id) {
        s
    } else {
        let w = window_of(s, id).collapse_toggled();
        let node = if w.is_collapsed {
            Node { height: Val::Px(TITLE_BAR_HEIGHT), ..s[id].node }
        } else {
            node_sized(s[id].node, w.size)
        };
        children_shown(with_record(s, id, w, node), id, !w.is_collapsed)
    }
}

/// The arena after a maximize request for `id` on the given screen.
pub open spec fn maximized(s: Seq<UiEntity>, id: int, screen: Vec2) -> Seq<UiEntity> {
    if !can_maximize(s, id) {
        s
    } else {
        let w = window_of(s, id).maximize_toggled(screen);
        let s1 = with_record(s, id, w, node_placed(s[id].node, w.position, w.size));
        if w.is_maximized {
            let s2 = if window_of(s, id).is_collapsed {
                children_shown(s1, id, true)
            } else {
                s1
            };
            handles_shown(s2, id, false)
        } else {
            handles_shown(s1, id, true)
        }
    }
}

/// A minimize request for `id` can be carried out: `id` is a live window
/// and, on the way down, the chip of the lowest free slot lies where a
/// stored coordinate can name it; on the way back, a z-index is left to
/// give.
pub open spec fn can_minimize(s: Seq<UiEntity>, id: int, screen: Vec2, next_z_index: i32) -> bool {
    &&& is_window(s, id)
    &&& if window_of(s, id).is_minimized {
        next_z_index < i32::MAX
    } else {
        chip_in_range(first_free_slot(s) as int, screen)
    }
}

/// The arena after a minimize request for `id`.
pub open spec fn minimized(s: Seq<UiEntity>, id: int, screen: Vec2, next_z_index: i32) -> Seq<
    UiEntity,
> {
    if !can_minimize(s, id, screen, next_z_index) {
        s
    } else {
        let w = window_of(s, id).minimize_toggled(first_free_slot(s), screen, next_z_index);
        let s1 = with_record(s, id, w, node_placed(s[id].node, w.position, w.size));
        handles_shown(children_shown(s1, id, !w.is_minimized), id, !w.is_minimized)
    }
}

/// The z-order counter after a minimize request for `id`: a window that
/// comes back takes one z-index.
pub open spec fn minimized_counter(
    s: Seq<UiEntity>,
    id: int,
    screen: Vec2,
    next_z_index: i32,
) -> i32 {
    if can_minimize(s, id, screen, next_z_index) && window_of(s, id).is_minimized {
        (next_z_index + 1) as i32
    } else {
        next_z_index
    }
}

/// Collapses window `window_entity` to its title bar, or expands it.
pub fn collapse_window(registry: &mut WindowRegistry, window_entity: usize)
    requires
        old(registry).wf(),
    ensures
        final(registry).entities@ == collapsed(old(registry).entities@, window_entity as int),
        final(registry).wf(),
{
    let free = match registry.window(window_entity) {
        Some(w) => !w.is_maximized && !w.is_minimized,
        None => false,
    };
    if !free {
        return ;
    }
    let mut now_collapsed = false;
    let mut size = Vec2 { x: 0, y: 0 };
    match &mut registry.entities[window_entity].role {
        Role::Window(w) => {
            w.toggle_collapse();
            now_collapsed = w.is_collapsed;
            size = w.size;
        },
        _ => {},
    }
    if now_collapsed {
        registry.entities[window_entity].node.height = Val::Px(TITLE_BAR_HEIGHT);
    } else {
        registry.entities[window_entity].node.width = Val::Px(size.x);
        registry.entities[window_entity].node.height = Val::Px(size.y);
    }
    proof {
        let s = old(registry).entities@;
        let id = window_entity as int;
        let w = window_of(s, id).collapse_toggled();
        let node = if w.is_collapsed {
            Node { height: Val::Px(TITLE_BAR_HEIGHT), ..s[id].node }
        } else {
            node_sized(s[id].node, w.size)
        };
        assert(registry.entities@ =~= with_record(s, id, w, node));
    }
    hide_window_children(registry, window_entity, !now_collapsed);
}

/// Maximizes window `window_entity` to the screen, or restores it.
pub fn maximize_window(registry: &mut WindowRegistry, window_entity: usize, screen: Vec2)
    requires
        old(registry).wf(),
    ensures
        final(registry).entities@ == maximized(
            old(registry).entities@,
            window_entity as int,
            screen,
        ),
        final(registry).wf(),
{
    let free = match registry.window(window_entity) {
        Some(w) => !w.is_minimized,
        None => false,
    };
    if !free {
        return ;
    }
    let mut now_maximized = false;
    let mut was_collapsed = false;
    let mut size = Vec2 { x: 0, y: 0 };
    let mut position = Vec2 { x: 0, y: 0 };
    match &mut registry.entities[window_entity].role {
        Role::Window(w) => {
            was_collapsed = w.is_collapsed;
            w.toggle_maximize(screen);
            now_maximized = w.is_maximized;
            size = w.size;
            position = w.position;
        },
        _ => {},
    }
    registry.entities[window_entity].node.left = Val::Px(position.x);
    registry.entities[window_entity].node.top = Val::Px(position.y);
    registry.entities[window_entity].node.width = Val::Px(size.x);
    registry.entities[window_entity].node.height = Val::Px(size.y);
    proof {
        let s = old(registry).entities@;
        let id = window_entity as int;
        let w = window_of(s, id).maximize_toggled(screen);
        assert(registry.entities@ =~= with_record(
            s,
            id,
            w,
            node_placed(s[id].node, w.position, w.size),
        ));
    }
    if now_maximized {
        if was_collapsed {
            hide_window_children(registry, window_entity, true);
        }
        hide_resize_handles(registry, window_entity, false);
    } else {
        hide_resize_handles(registry, window_entity, true);
    }
}

/// Minimizes window `window_entity` into the lowest free taskbar slot, or
/// restores it and brings it to the front.
///
/// Where the request cannot be carried out (see [`can_minimize`]),
/// nothing changes.
pub fn minimize_window(
    registry: &mut WindowRegistry,
    window_manager: &mut WindowManager,
    window_entity: usize,
    screen: Vec2,
)
    requires
        old(registry).wf(),
    ensures
        final(registry).entities@ == minimized(
            old(registry).entities@,
            window_entity as int,
            screen,
            old(window_manager).next_z_index,
        ),
        final(registry).wf(),
        final(window_manager).next_z_index == minimized_counter(
            old(registry).entities@,
            window_entity as int,
            screen,
            old(window_manager).next_z_index,
        ),
        final(window_manager).snap_threshold == old(window_manager).snap_threshold,
        final(window_manager).is_dragging_window == old(window_manager).is_dragging_window,
        final(window_manager).is_resizing_window == old(window_manager).is_resizing_window,
        final(window_manager).dragging_window_entity == old(window_manager).dragging_window_entity,
        final(window_manager).pending_content_updates@ == old(
            window_manager,
        ).pending_content_updates@,
{
    let slot = find_first_free_slot(registry);
    if !registry.contains_window(window_entity) {
        return ;
    }
    let going_down = match &registry.entities[window_entity].role {
        Role::Window(w) => !w.is_minimized,
        _ => false,
    };
    if going_down {
        if calculate_minimize_position(slot, screen.x, screen.y).is_none() {
            return ;
        }
    } else {
        if !window_manager.check_can_raise() {
            return ;
        }
    }
    let z = window_manager.next_z_index;
    let mut size = Vec2 { x: 0, y: 0 };
    let mut position = Vec2 { x: 0, y: 0 };
    match &mut registry.entities[window_entity].role {
        Role::Window(w) => {
            w.toggle_minimize(slot, screen, z);
            size = w.size;
            position = w.position;
        },
        _ => {},
    }
    if !going_down {
        window_manager.next_z_index = z + 1;
    }
    registry.entities[window_entity].node.left = Val::Px(position.x);
    registry.entities[window_entity].node.top = Val::Px(position.y);
    registry.entities[window_entity].node.width = Val::Px(size.x);
    registry.entities[window_entity].node.height = Val::Px(size.y);
    proof {
        let s = old(registry).entities@;
        let id = window_entity as int;
        let w = window_of(s, id).minimize_toggled(slot, screen, z);
        assert(registry.entities@ =~= with_record(
            s,
            id,
            w,
            node_placed(s[id].node, w.position, w.size),
        ));
    }
    hide_window_children(registry, window_entity, !going_down);
    hide_resize_handles(registry, window_entity, !going_down);
}

/// The arena after the collapse requests from the `i`-th on, in order.
pub open spec fn collapsed_all(s: Seq<UiEntity>, events: Seq<WindowCollapseEvent>, i: int) -> Seq<
    UiEntity,
>
    decreases events.len() - i,
{
    if i < 0 || i >= events.len() {
        s
    } else {
        collapsed_all(collapsed(s, events[i].window_entity as int), events, i + 1)
    }
}

/// The arena after the maximize requests from the `i`-th on, in order.
pub open spec fn maximized_all(
    s: Seq<UiEntity>,
    events: Seq<WindowMaximizeEvent>,
    screen: Vec2,
    i: int,
) -> Seq<UiEntity>
    decreases events.len() - i,
{
    if i < 0 || i >= events.len() {
        s
    } else {
        maximized_all(maximized(s, events[i].window_entity as int, screen), events, screen, i + 1)
    }
}

/// The arena after the minimize requests from the `i`-th on, in order.
pub open spec fn minimized_all(
    s: Seq<UiEntity>,
    events: Seq<WindowMinimizeEvent>,
    screen: Vec2,
    next_z_index: i32,
    i: int,
) -> Seq<UiEntity>
    decreases events.len() - i,
{
    if i < 0 || i >= events.len() {
        s
    } else {
        let id = events[i].window_entity as int;
        minimized_all(
            minimized(s, id, screen, next_z_index),
            events,
            screen,
            minimized_counter(s, id, screen, next_z_index),
            i + 1,
        )
    }
}

/// The z-order counter after the minimize requests from the `i`-th on.
pub open spec fn minimized_all_counter(
    s: Seq<UiEntity>,
    events: Seq<WindowMinimizeEvent>,
    screen: Vec2,
    next_z_index: i32,
    i: int,
) -> i32
    decreases events.len() - i,
{
    if i < 0 || i >= events.len() {
        next_z_index
    } else {
        let id = events[i].window_entity as int;
        minimized_all_counter(
            minimized(s, id, screen, next_z_index),
            events,
            screen,
            minimized_counter(s, id, screen, next_z_index),
            i + 1,
        )
    }
}

/// Carries out the collapse requests of one frame, in order.
pub fn handle_window_collapse(registry: &mut WindowRegistry, events: &Vec<WindowCollapseEvent>)
    requires
        old(registry).wf(),
    ensures
        final(registry).entities@ == collapsed_all(old(registry).entities@, events@, 0),
        final(registry).wf(),
{
    let mut i: usize = 0;
    while i < events.len()
        invariant
            i <= events.len(),
            registry.wf(),
            collapsed_all(registry.entities@, events@, i as int) == collapsed_all(
                old(registry).entities@,
                events@,
                0,
            ),
        decreases events.len() - i,
    {
        collapse_window(registry, events[i].window_entity);
        i = i + 1;
    }
}

/// Carries out the maximize requests of one frame, in order. Without a
/// screen nothing happens.
pub fn handle_window_maximize(
    registry: &mut WindowRegistry,
    events: &Vec<WindowMaximizeEvent>,
    screen: Option<Vec2>,
)
    requires
        old(registry).wf(),
    ensures
        final(registry).entities@ == match screen {
            Some(size) => maximized_all(old(registry).entities@, events@, size, 0),
            None => old(registry).entities@,
        },
        final(registry).wf(),
{
    if let Some(size) = screen {
        let mut i: usize = 0;
        while i < events.len()
            invariant
                i <= events.len(),
                registry.wf(),
                maximized_all(registry.entities@, events@, size, i as int) == maximized_all(
                    old(registry).entities@,
                    events@,
                    size,
                    0,
                ),
            decreases events.len() - i,
        {
            maximize_window(registry, events[i].window_entity, size);
            i = i + 1;
        }
    }
}

/// Carries out the minimize requests of one frame, in order. Without a
/// screen nothing happens.
pub fn handle_window_minimize(
    registry: &mut WindowRegistry,
    window_manager: &mut WindowManager,
    events: &Vec<WindowMinimizeEvent>,
    screen: Option<Vec2>,
)
    requires
        old(registry).wf(),
    ensures
        final(registry).entities@ == match screen {
            Some(size) => minimized_all(
                old(registry).entities@,
                events@,
                size,
                old(window_manager).next_z_index,
                0,
            ),
            None => old(registry).entities@,
        },
        final(registry).wf(),
        final(window_manager).next_z_index == match screen {
            Some(size) => minimized_all_counter(
                old(registry).entities@,
                events@,
                size,
                old(window_manager).next_z_index,
                0,
            ),
            None => old(window_manager).next_z_index,
        },
        final(window_manager).snap_threshold == old(window_manager).snap_threshold,
        final(window_manager).is_dragging_window == old(window_manager).is_dragging_window,
        final(window_manager).is_resizing_window == old(window_manager).is_resizing_window,
        final(window_manager).dragging_window_entity == old(window_manager).dragging_window_entity,
        final(window_manager).pending_content_updates@ == old(
            window_manager,
        ).pending_content_updates@,
{
    if let Some(size) = screen {
        let mut i: usize = 0;
        while i < events.len()
            invariant
                i <= events.len(),
                registry.wf(),
                minimized_all(
                    registry.entities@,
                    events@,
                    size,
                    window_manager.next_z_index,
                    i as int,
                ) == minimized_all(
                    old(registry).entities@,
                    events@,
                    size,
                    old(window_manager).next_z_index,
                    0,
                ),
                minimized_all_counter(
                    registry.entities@,
                    events@,
                    size,
                    window_manager.next_z_index,
                    i as int,
                ) == minimized_all_counter(
                    old(registry).entities@,
                    events@,
                    size,
                    old(window_manager).next_z_index,
                    0,
                ),
                window_manager.snap_threshold == old(window_manager).snap_threshold,
                window_manager.is_dragging_window == old(window_manager).is_dragging_window,
                window_manager.is_resizing_window == old(window_manager).is_resizing_window,
                window_manager.dragging_window_entity == old(
                    window_manager,
                ).dragging_window_entity,
                window_manager.pending_content_updates@ == old(
                    window_manager,
                ).pending_content_updates@,
            decreases events.len() - i,
        {
            minimize_window(registry, window_manager, events[i].window_entity, size);
            i = i + 1;
        }
    }
}

/// Every live window is in at most one of the collapsed, the maximized
/// and the minimized state.
pub open spec fn all_at_rest(s: Seq<UiEntity>) -> bool {
    forall|i: int| is_window(s, i) ==> (#[trigger] window_of(s, i)).at_rest()
}

/// A transition of window `id` from `s` to `t` that gave it the record
/// `w` and left every other record alone.
pub open spec fn only_record_changed(
    s: Seq<UiEntity>,
    t: Seq<UiEntity>,
    id: int,
    w: Window,
) -> bool {
    &&& t.len() == s.len()
    &&& forall|j: int| is_window(t, j) == is_window(s, j)
    &&& forall|j: int| is_window(s, j) && j != id ==> #[trigger] window_of(t, j) == window_of(s, j)
    &&& is_window(s, id) ==> window_of(t, id) == w
}

/// What each request does to the records: the named window changes as
/// its transition says, all others stay.
pub proof fn lemma_transition_records(s: Seq<UiEntity>, id: int, screen: Vec2, next_z_index: i32)
    requires
        is_window(s, id),
    ensures
        only_record_changed(s, collapsed(s, id), id, window_of(s, id).collapse_toggled()),
        only_record_changed(
            s,
            maximized(s, id, screen),
            id,
            window_of(s, id).maximize_toggled(screen),
        ),
        only_record_changed(
            s,
            minimized(s, id, screen, next_z_index),
            id,
            if can_minimize(s, id, screen, next_z_index) {
                window_of(s, id).minimize_toggled(first_free_slot(s), screen, next_z_index)
            } else {
                window_of(s, id)
            },
        ),
{
}

/// No two minimized windows ever share a taskbar slot: a minimize request
/// keeps the slots apart.
pub proof fn lemma_minimize_keeps_slots_distinct(
    s: Seq<UiEntity>,
    id: int,
    screen: Vec2,
    next_z_index: i32,
)
    requires
        slots_distinct(s),
        s.len() <= usize::MAX,
    ensures
        slots_distinct(minimized(s, id, screen, next_z_index)),
{
    let t = minimized(s, id, screen, next_z_index);
    if can_minimize(s, id, screen, next_z_index) {
        assert forall|i: int, j: int|
            0 <= i < t.len() && 0 <= j < t.len() && i != j && #[trigger] taskbar_slot(t, i) is Some
                && #[trigger] taskbar_slot(t, j) is Some implies taskbar_slot(t, i) != taskbar_slot(
            t,
            j,
        ) by {
            if i != id {
                assert(taskbar_slot(t, i) == taskbar_slot(s, i));
            }
            if j != id {
                assert(taskbar_slot(t, j) == taskbar_slot(s, j));
            }
            if !window_of(s, id).is_minimized {
                lemma_some_first_free(s);
            }
        }
    }
}

/// Collapse and maximize requests leave every taskbar slot as it is.
pub proof fn lemma_other_requests_keep_slots(s: Seq<UiEntity>, id: int, screen: Vec2)
    ensures
        forall|j: int| #[trigger] taskbar_slot(collapsed(s, id), j) == taskbar_slot(s, j),
        forall|j: int| #[trigger] taskbar_slot(maximized(s, id, screen), j) == taskbar_slot(s, j),
        slots_distinct(s) ==> slots_distinct(collapsed(s, id)),
        slots_distinct(s) ==> slots_distinct(maximized(s, id, screen)),
{
    assert forall|j: int| #[trigger] taskbar_slot(collapsed(s, id), j) == taskbar_slot(s, j) by {
        assert(is_window(collapsed(s, id), j) == is_window(s, j));
    }
    assert forall|j: int| #[trigger]
        taskbar_slot(maximized(s, id, screen), j) == taskbar_slot(s, j) by {
        assert(is_window(maximized(s, id, screen), j) == is_window(s, j));
    }
}

/// Every request keeps every window in at most one of the collapsed,
/// the maximized and the minimized state.
pub proof fn lemma_requests_keep_rest(s: Seq<UiEntity>, id: int, screen: Vec2, next_z_index: i32)
    requires
        all_at_rest(s),
    ensures
        all_at_rest(collapsed(s, id)),
        all_at_rest(maximized(s, id, screen)),
        all_at_rest(minimized(s, id, screen, next_z_index)),
{
    if is_window(s, id) {
        lemma_transition_records(s, id, screen, next_z_index);
        assert(window_of(s, id).at_rest());
    }
}

/// On a screen of supported size, a minimize request for a window that
/// is not minimized is carried out as long as the arena is not so large
/// that its taskbar rows could leave the pixel range.
pub proof fn lemma_minimize_is_carried_out(
    s: Seq<UiEntity>,
    id: int,
    screen: Vec2,
    next_z_index: i32,
)
    requires
        is_window(s, id),
        !window_of(s, id).is_minimized,
        screen.is_extent(),
        s.len() * 35 <= PIXEL_LIMIT - 35,
    ensures
        can_minimize(s, id, screen, next_z_index),
{
    lemma_some_first_free(s);
    let slot = first_free_slot(s) as int;
    assert(slot * 35 <= s.len() * 35) by (nonlinear_arith)
        requires
            0 <= slot <= s.len(),
    ;
    lemma_low_slots_in_range(slot, screen);
}

/// A window that goes down into the taskbar takes the lowest free slot,
/// which no other minimized window holds, and leaves the slots of all
/// others as they are.
pub proof fn lemma_minimized_slot_is_fresh(
    s: Seq<UiEntity>,
    id: int,
    screen: Vec2,
    next_z_index: i32,
)
    requires
        s.len() <= usize::MAX,
        can_minimize(s, id, screen, next_z_index),
        !window_of(s, id).is_minimized,
    ensures
        window_of(minimized(s, id, screen, next_z_index), id).is_minimized,
        taskbar_slot(minimized(s, id, screen, next_z_index), id) == Some(first_free_slot(s)),
        forall|j: int|
            0 <= j < s.len() && j != id ==> #[trigger] taskbar_slot(
                minimized(s, id, screen, next_z_index),
                j,
            ) == taskbar_slot(s, j),
        forall|j: int|
            0 <= j < s.len() && j != id ==> #[trigger] taskbar_slot(s, j) != Some(
                first_free_slot(s),
            ),
{
    lemma_transition_records(s, id, screen, next_z_index);
    lemma_some_first_free(s);
    let t = minimized(s, id, screen, next_z_index);
    assert forall|j: int| 0 <= j < s.len() && j != id implies #[trigger] taskbar_slot(t, j)
        == taskbar_slot(s, j) by {
        assert(is_window(t, j) == is_window(s, j));
    }
}

} // verus!
