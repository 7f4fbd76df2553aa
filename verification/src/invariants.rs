//! What holds of the registry between any two frames: every window is
//! in at most one of the collapsed, the maximized and the minimized
//! state, no two minimized windows share a taskbar slot, and no two
//! windows share a z-index, all of which lie below the manager's counter.

use vstd::prelude::*;
use crate::chrome::{handles_synced, window_chrome};
use crate::drag::{drag_begun, drag_begun_all, drag_continued, drag_frame};
use crate::events::{
    WindowCloseEvent, WindowCollapseEvent, WindowDragEvent, WindowFocusEvent, WindowMaximizeEvent,
    WindowMinimizeEvent, WindowResizeEvent,
};
use crate::geometry::Vec2;
use crate::gesture::{GestureState, Pointer};
use crate::handle::ResizeHandle;
use crate::lifecycle::{closed, closed_all, content_cleared, content_flushed};
use crate::manager::ContentUpdate;
use crate::min_size::{enforced, enforced_from};
use crate::plugin::{
    frame_after_close, frame_after_drag, frame_after_focus, frame_after_maximize,
    frame_after_minimize, frame_after_resize, frame_before_drag, frame_before_resize,
    frame_buttons, frame_counter, frame_counter_after_focus, frame_entities, frame_focus_events,
    frame_handles, frame_title_bars, FrameInput, FrameState,
};
use crate::registry::{is_window, window_of, UiEntity};
use crate::resize::{resize_begun, resize_begun_all, resize_frame};
use crate::router::{
    handle_pressed, handles_routed, held_by, presses_handle, pressed_title_bar,
    title_bars_routed, HandleRouting, InteractionChange, TitleBarRouting,
};
use crate::slots::{slots_distinct, taskbar_slot};
use crate::transitions::{
    all_at_rest, can_minimize, collapsed, collapsed_all, lemma_minimize_keeps_slots_distinct,
    lemma_other_requests_keep_slots, lemma_requests_keep_rest, lemma_transition_records,
    maximized, maximized_all, minimized, minimized_all, minimized_all_counter, minimized_counter,
    only_record_changed,
};
use crate::window::Window;
use crate::zorder::{
    focused, focused_all, focused_all_counter, focused_counter, lemma_focus_keeps_z_order,
    z_order_sound, z_order_synced,
};

verus! {

/// Two records agree in their state and in what the taskbar and the
/// z-order know of them.
pub open spec fn same_standing(a: Window, b: Window) -> bool {
    &&& a.is_collapsed == b.is_collapsed
    &&& a.is_maximized == b.is_maximized
    &&& a.is_minimized == b.is_minimized
    &&& a.minimize_slot == b.minimize_slot
    &&& a.z_index == b.z_index
}

/// Every live window of `t` is a live window of `s` with the same
/// standing: a step from `s` to `t` may have closed windows, but has
/// neither opened one nor touched a state, a slot or a z-index.
pub open spec fn keeps_windows(s: Seq<UiEntity>, t: Seq<UiEntity>) -> bool {
    &&& t.len() == s.len()
    &&& forall|j: int| #[trigger]
        is_window(t, j) ==> is_window(s, j) && same_standing(window_of(t, j), window_of(s, j))
}

/// The registry is sound: every window is in at most one of the three
/// states, slots are distinct and the z-order is sound.
pub open spec fn registry_sound(s: Seq<UiEntity>, next_z_index: i32) -> bool {
    &&& s.len() <= usize::MAX
    &&& all_at_rest(s)
    &&& slots_distinct(s)
    &&& z_order_sound(s, next_z_index)
}

/// Keeping the windows carries over from step to step.
pub proof fn lemma_keeps_windows_chain(s: Seq<UiEntity>, t: Seq<UiEntity>, u: Seq<UiEntity>)
    requires
        keeps_windows(s, t),
        keeps_windows(t, u),
    ensures
        keeps_windows(s, u),
{
}

/// A step that keeps the windows keeps the registry sound.
pub proof fn lemma_keeps_windows_sound(s: Seq<UiEntity>, t: Seq<UiEntity>, next_z_index: i32)
    requires
        keeps_windows(s, t),
        registry_sound(s, next_z_index),
    ensures
        registry_sound(t, next_z_index),
{
    assert forall|i: int, j: int|
        0 <= i < t.len() && 0 <= j < t.len() && i != j && #[trigger] taskbar_slot(t, i) is Some
            && #[trigger] taskbar_slot(t, j) is Some implies taskbar_slot(t, i) != taskbar_slot(
        t,
        j,
    ) by {
        assert(taskbar_slot(s, i) == taskbar_slot(t, i));
        assert(taskbar_slot(s, j) == taskbar_slot(t, j));
    }
}

proof fn lemma_handles_routed_keeps(
    r: HandleRouting,
    changes: Seq<InteractionChange>,
    just_pressed: bool,
    pointer: Option<Pointer>,
    i: int,
)
    ensures
        keeps_windows(r.entities, handles_routed(r, changes, just_pressed, pointer, i).entities),
    decreases changes.len() - i,
{
    if 0 <= i < changes.len() {
        if presses_handle(r.entities, changes[i], just_pressed) {
            let next = handle_pressed(r, changes[i].entity as int, pointer);
            lemma_handles_routed_keeps(next, changes, just_pressed, pointer, i + 1);
        } else {
            lemma_handles_routed_keeps(r, changes, just_pressed, pointer, i + 1);
        }
    }
}

proof fn lemma_title_bars_routed_keeps(
    r: TitleBarRouting,
    changes: Seq<InteractionChange>,
    just_pressed: bool,
    resizing: bool,
    i: int,
)
    ensures
        keeps_windows(
            r.entities,
            title_bars_routed(r, changes, just_pressed, resizing, i).entities,
        ),
    decreases changes.len() - i,
{
    if 0 <= i < changes.len() {
        match pressed_title_bar(r.entities, changes[i], just_pressed, resizing) {
            Some(w) => {
                let next = TitleBarRouting {
                    entities: held_by(r.entities, w as int, ResizeHandle::DragSentinel),
                    focus_events: r.focus_events.push(WindowFocusEvent { window_entity: w }),
                    drag_events: r.drag_events.push(crate::router::drag_start_event(w)),
                };
                lemma_title_bars_routed_keeps(next, changes, just_pressed, resizing, i + 1);
            },
            None => {
                lemma_title_bars_routed_keeps(r, changes, just_pressed, resizing, i + 1);
            },
        }
    }
}

proof fn lemma_resize_begun_all_keeps(
    g: GestureState,
    events: Seq<WindowResizeEvent>,
    pointer: Option<Pointer>,
    i: int,
)
    ensures
        resize_begun_all(g, events, pointer, i).entities == g.entities,
    decreases events.len() - i,
{
    if 0 <= i < events.len() {
        lemma_resize_begun_all_keeps(
            resize_begun(g, events[i].window_entity as int, pointer),
            events,
            pointer,
            i + 1,
        );
    }
}

/// A resize frame keeps the windows.
pub proof fn lemma_resize_frame_keeps(
    g: GestureState,
    events: Seq<WindowResizeEvent>,
    pressed: bool,
    pointer: Option<Pointer>,
)
    ensures
        keeps_windows(g.entities, resize_frame(g, events, pressed, pointer).entities),
{
    lemma_resize_begun_all_keeps(g, events, pointer, 0);
}

proof fn lemma_drag_begun_all_keeps(
    g: GestureState,
    events: Seq<WindowDragEvent>,
    pointer: Option<Pointer>,
    i: int,
)
    ensures
        keeps_windows(g.entities, drag_begun_all(g, events, pointer, i).entities),
    decreases events.len() - i,
{
    if 0 <= i < events.len() {
        let next = drag_begun(g, events[i].window_entity as int, pointer);
        lemma_drag_begun_all_keeps(next, events, pointer, i + 1);
    }
}

/// A drag frame keeps the windows.
pub proof fn lemma_drag_frame_keeps(
    g: GestureState,
    events: Seq<WindowDragEvent>,
    pressed: bool,
    pointer: Option<Pointer>,
)
    ensures
        keeps_windows(g.entities, drag_frame(g, events, pressed, pointer).entities),
{
    lemma_drag_begun_all_keeps(g, events, pointer, 0);
    let g1 = drag_begun_all(g, events, pointer, 0);
    lemma_keeps_windows_chain(
        g.entities,
        g1.entities,
        drag_continued(g1, pressed, pointer).entities,
    );
}

/// A collapse request keeps the registry sound.
pub proof fn lemma_collapsed_sound(s: Seq<UiEntity>, id: int, next_z_index: i32)
    requires
        registry_sound(s, next_z_index),
    ensures
        registry_sound(collapsed(s, id), next_z_index),
{
    let screen = Vec2 { x: 0, y: 0 };
    lemma_other_requests_keep_slots(s, id, screen);
    lemma_requests_keep_rest(s, id, screen, next_z_index);
    if is_window(s, id) {
        lemma_transition_records(s, id, screen, next_z_index);
        lemma_records_keep_z_order(s, collapsed(s, id), id, next_z_index);
    }
}

/// A maximize request keeps the registry sound.
pub proof fn lemma_maximized_sound(s: Seq<UiEntity>, id: int, screen: Vec2, next_z_index: i32)
    requires
        registry_sound(s, next_z_index),
    ensures
        registry_sound(maximized(s, id, screen), next_z_index),
{
    lemma_other_requests_keep_slots(s, id, screen);
    lemma_requests_keep_rest(s, id, screen, next_z_index);
    if is_window(s, id) {
        lemma_transition_records(s, id, screen, next_z_index);
        lemma_records_keep_z_order(s, maximized(s, id, screen), id, next_z_index);
    }
}

/// A step that changed nothing but one record, and not its z-index,
/// keeps the z-order sound.
proof fn lemma_records_keep_z_order(s: Seq<UiEntity>, t: Seq<UiEntity>, id: int, next_z_index: i32)
    requires
        z_order_sound(s, next_z_index),
        is_window(s, id),
        only_record_changed(s, t, id, window_of(t, id)),
        window_of(t, id).z_index == window_of(s, id).z_index,
    ensures
        z_order_sound(t, next_z_index),
{
    assert forall|i: int| is_window(t, i) implies (#[trigger] window_of(t, i)).z_index
        < next_z_index by {
        assert(is_window(s, i));
        assert(window_of(s, i).z_index < next_z_index);
    }
    assert forall|i: int, j: int| is_window(t, i) && is_window(t, j) && i != j implies (
    #[trigger] window_of(t, i)).z_index != (#[trigger] window_of(t, j)).z_index by {
        assert(is_window(s, i) && is_window(s, j));
        assert(window_of(s, i).z_index != window_of(s, j).z_index);
    }
}

/// The collapse requests of a frame keep the registry sound.
pub proof fn lemma_collapsed_all_sound(
    s: Seq<UiEntity>,
    events: Seq<WindowCollapseEvent>,
    next_z_index: i32,
    i: int,
)
    requires
        registry_sound(s, next_z_index),
    ensures
        registry_sound(collapsed_all(s, events, i), next_z_index),
    decreases events.len() - i,
{
    if 0 <= i < events.len() {
        let id = events[i].window_entity as int;
        lemma_collapsed_sound(s, id, next_z_index);
        lemma_collapsed_all_sound(collapsed(s, id), events, next_z_index, i + 1);
    }
}

/// The maximize requests of a frame keep the registry sound.
pub proof fn lemma_maximized_all_sound(
    s: Seq<UiEntity>,
    events: Seq<WindowMaximizeEvent>,
    screen: Vec2,
    next_z_index: i32,
    i: int,
)
    requires
        registry_sound(s, next_z_index),
    ensures
        registry_sound(maximized_all(s, events, screen, i), next_z_index),
    decreases events.len() - i,
{
    if 0 <= i < events.len() {
        let id = events[i].window_entity as int;
        lemma_maximized_sound(s, id, screen, next_z_index);
        lemma_maximized_all_sound(maximized(s, id, screen), events, screen, next_z_index, i + 1);
    }
}

proof fn lemma_closed_all_keeps(s: Seq<UiEntity>, events: Seq<WindowCloseEvent>, i: int)
    ensures
        keeps_windows(s, closed_all(s, events, i)),
    decreases events.len() - i,
{
    if 0 <= i < events.len() {
        let next = closed(s, events[i].window_entity as int);
        lemma_closed_all_keeps(next, events, i + 1);
    }
}

proof fn lemma_content_flushed_keeps(s: Seq<UiEntity>, updates: Seq<ContentUpdate>, i: int)
    ensures
        keeps_windows(s, content_flushed(s, updates, i)),
    decreases updates.len() - i,
{
    if 0 <= i < updates.len() {
        let next = content_cleared(s, updates[i]);
        lemma_content_flushed_keeps(next, updates, i + 1);
    }
}

proof fn lemma_enforced_from_keeps(s: Seq<UiEntity>, e: int)
    ensures
        keeps_windows(s, enforced_from(s, e)),
    decreases s.len() - e,
{
    if 0 <= e < s.len() {
        let next = enforced(s, e);
        lemma_enforced_from_keeps(next, e + 1);
    }
}

/// A focus request keeps the registry sound.
pub proof fn lemma_focused_sound(s: Seq<UiEntity>, id: int, next_z_index: i32)
    requires
        registry_sound(s, next_z_index),
    ensures
        registry_sound(focused(s, id, next_z_index), focused_counter(s, id, next_z_index)),
{
    lemma_focus_keeps_z_order(s, id, next_z_index);
    let t = focused(s, id, next_z_index);
    assert forall|i: int| is_window(t, i) implies (#[trigger] window_of(t, i)).at_rest() by {
        assert(is_window(s, i));
        assert(window_of(s, i).at_rest());
    }
    assert forall|i: int, j: int|
        0 <= i < t.len() && 0 <= j < t.len() && i != j && #[trigger] taskbar_slot(t, i) is Some
            && #[trigger] taskbar_slot(t, j) is Some implies taskbar_slot(t, i) != taskbar_slot(
        t,
        j,
    ) by {
        assert(taskbar_slot(s, i) == taskbar_slot(t, i));
        assert(taskbar_slot(s, j) == taskbar_slot(t, j));
    }
}

/// The focus requests of a frame keep the registry sound.
pub proof fn lemma_focused_all_sound(
    s: Seq<UiEntity>,
    events: Seq<WindowFocusEvent>,
    next_z_index: i32,
    i: int,
)
    requires
        registry_sound(s, next_z_index),
    ensures
        registry_sound(
            focused_all(s, events, next_z_index, i),
            focused_all_counter(s, events, next_z_index, i),
        ),
    decreases events.len() - i,
{
    if 0 <= i < events.len() {
        let id = events[i].window_entity as int;
        lemma_focused_sound(s, id, next_z_index);
        lemma_focused_all_sound(
            focused(s, id, next_z_index),
            events,
            focused_counter(s, id, next_z_index),
            i + 1,
        );
    }
}

/// A minimize request keeps the registry sound.
pub proof fn lemma_minimized_sound(s: Seq<UiEntity>, id: int, screen: Vec2, next_z_index: i32)
    requires
        registry_sound(s, next_z_index),
    ensures
        registry_sound(
            minimized(s, id, screen, next_z_index),
            minimized_counter(s, id, screen, next_z_index),
        ),
{
    lemma_minimize_keeps_slots_distinct(s, id, screen, next_z_index);
    lemma_requests_keep_rest(s, id, screen, next_z_index);
    if can_minimize(s, id, screen, next_z_index) {
        lemma_transition_records(s, id, screen, next_z_index);
    }
}

/// The minimize requests of a frame keep the registry sound.
pub proof fn lemma_minimized_all_sound(
    s: Seq<UiEntity>,
    events: Seq<WindowMinimizeEvent>,
    screen: Vec2,
    next_z_index: i32,
    i: int,
)
    requires
        registry_sound(s, next_z_index),
    ensures
        registry_sound(
            minimized_all(s, events, screen, next_z_index, i),
            minimized_all_counter(s, events, screen, next_z_index, i),
        ),
    decreases events.len() - i,
{
    if 0 <= i < events.len() {
        let id = events[i].window_entity as int;
        lemma_minimized_sound(s, id, screen, next_z_index);
        lemma_minimized_all_sound(
            minimized(s, id, screen, next_z_index),
            events,
            screen,
            minimized_counter(s, id, screen, next_z_index),
            i + 1,
        );
    }
}

/// A new window keeps the registry sound.
pub proof fn lemma_created_sound(s: Seq<UiEntity>, w: Window, next_z_index: i32)
    requires
        registry_sound(s, next_z_index),
        s.len() + 23 <= usize::MAX,
        next_z_index < i32::MAX,
        w.z_index == next_z_index,
        w.resizable(),
    ensures
        registry_sound(s + window_chrome(s.len() as usize, w), (next_z_index + 1) as i32),
{
    let base = s.len() as int;
    let t = s + window_chrome(s.len() as usize, w);
    assert forall|j: int| #[trigger] is_window(t, j) implies (j < base && is_window(s, j)
        && window_of(t, j) == window_of(s, j)) || (j == base && window_of(t, j) == w) by {
    }
    assert forall|i: int, j: int|
        0 <= i < t.len() && 0 <= j < t.len() && i != j && #[trigger] taskbar_slot(t, i) is Some
            && #[trigger] taskbar_slot(t, j) is Some implies taskbar_slot(t, i) != taskbar_slot(
        t,
        j,
    ) by {
        assert(taskbar_slot(s, i) == taskbar_slot(t, i));
        assert(taskbar_slot(s, j) == taskbar_slot(t, j));
    }
}

/// A whole frame keeps the registry sound: whatever the pointer did,
/// every window is in at most one state afterwards, no two minimized
/// windows share a slot, no two windows share a z-index, and the counter
/// lies above them all.
pub proof fn lemma_frame_keeps_registry_sound(st: FrameState, input: FrameInput)
    requires
        registry_sound(st.entities, st.manager.next_z_index),
    ensures
        registry_sound(frame_entities(st, input), frame_counter(st, input)),
{
    let z0 = st.manager.next_z_index;
    let changes = input.changes@;
    lemma_handles_routed_keeps(
        HandleRouting {
            entities: st.entities,
            resizing: st.manager.is_resizing_window,
            focus_events: Seq::empty(),
            resize_events: Seq::empty(),
        },
        changes,
        input.just_pressed,
        input.pointer(),
        0,
    );
    let s1 = frame_handles(st, input).entities;
    lemma_keeps_windows_sound(st.entities, s1, z0);
    lemma_title_bars_routed_keeps(
        TitleBarRouting { entities: s1, focus_events: Seq::empty(), drag_events: Seq::empty() },
        changes,
        input.just_pressed,
        frame_handles(st, input).resizing,
        0,
    );
    let s2 = frame_title_bars(st, input).entities;
    lemma_keeps_windows_sound(s1, s2, z0);
    lemma_resize_frame_keeps(
        frame_before_resize(st, input),
        frame_handles(st, input).resize_events,
        input.pressed,
        input.pointer(),
    );
    let s3 = frame_after_resize(st, input).entities;
    lemma_keeps_windows_sound(s2, s3, z0);
    lemma_drag_frame_keeps(
        frame_before_drag(st, input),
        frame_title_bars(st, input).drag_events,
        input.pressed,
        input.pointer(),
    );
    let s4 = frame_after_drag(st, input).entities;
    lemma_keeps_windows_sound(s3, s4, z0);
    let s5 = handles_synced(s4);
    lemma_keeps_windows_sound(s4, s5, z0);
    lemma_focused_all_sound(s5, frame_focus_events(st, input), z0, 0);
    let s6 = frame_after_focus(st, input);
    let z6 = frame_counter_after_focus(st, input);
    let buttons = frame_buttons(st, input);
    lemma_collapsed_all_sound(s6, buttons.collapse, z6, 0);
    let s7 = collapsed_all(s6, buttons.collapse, 0);
    let s8 = frame_after_maximize(st, input);
    match input.screen {
        Some(screen) => {
            lemma_maximized_all_sound(s7, buttons.maximize, screen, z6, 0);
            lemma_minimized_all_sound(s8, buttons.minimize, screen, z6, 0);
        },
        None => {},
    }
    let s9 = frame_after_minimize(st, input);
    let z9 = frame_counter(st, input);
    let s10 = z_order_synced(s9);
    lemma_keeps_windows_sound(s9, s10, z9);
    lemma_closed_all_keeps(s10, buttons.close, 0);
    let s11 = frame_after_close(st, input);
    lemma_keeps_windows_sound(s10, s11, z9);
    lemma_content_flushed_keeps(s11, st.manager.pending_content_updates@, 0);
    let s12 = content_flushed(s11, st.manager.pending_content_updates@, 0);
    lemma_keeps_windows_sound(s11, s12, z9);
    lemma_enforced_from_keeps(s12, 0);
    lemma_keeps_windows_sound(s12, frame_entities(st, input), z9);
}

} // verus!
