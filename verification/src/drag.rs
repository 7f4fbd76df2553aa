//! The drag controller: a title-bar drag moves one window with the
//! cursor, snaps it, and never lets it leave the screen.

use vstd::prelude::*;
use crate::events::WindowDragEvent;
use crate::geometry::{clamp_extent, clamp_to_extent, Rect, Vec2, PIXEL_LIMIT};
use crate::gesture::{
    check_obstacles_in_range, collect_obstacles, snap_obstacles, threshold_in_range, window_rect,
    GestureState, Pointer,
};
use crate::handle::ResizeHandle;
use crate::layout::{Node, Val};
use crate::manager::WindowManager;
use crate::registry::{is_window, window_of, Role, UiEntity, WindowRegistry};
use crate::snap::{obstacles_in_range, solve_snap, solve_snap_spec, SnapPlan, SnapResult};

use crate::window::Window;

verus! {

/// Where the cursor's movement since the last frame would put a window.
pub open spec fn drag_candidate(position: Vec2, size: Vec2, cursor: Vec2, last: Vec2) -> Rect {
    Rect {
        position: Vec2 {
            x: (position.x + cursor.x - last.x) as i32,
            y: (position.y + cursor.y - last.y) as i32,
        },
        size,
    }
}

/// Where a dragged window ends up: the candidate, snapped, and then held
/// to the screen. The screen wins over a snap that would leave it.
pub open spec fn dragged_position(
    position: Vec2,
    size: Vec2,
    cursor: Vec2,
    last: Vec2,
    obstacles: Seq<Rect>,
    screen: Vec2,
    threshold: i32,
) -> Vec2 {
    let plan = solve_snap_spec(
        drag_candidate(position, size, cursor, last),
        ResizeHandle::DragSentinel,
        obstacles,
        screen,
        threshold as int,
    );
    Vec2 {
        x: clamp_to_extent(plan.x, screen.x - size.x) as i32,
        y: clamp_to_extent(plan.y, screen.y - size.y) as i32,
    }
}

/// One step of a drag: the new position of the window and the solver's
/// answer for the unclamped candidate.
pub fn drag_step(
    position: Vec2,
    size: Vec2,
    cursor: Vec2,
    last: Vec2,
    obstacles: &Vec<Rect>,
    screen: Vec2,
    threshold: i32,
) -> (r: (Vec2, SnapResult))
    requires
        position.in_range(),
        size.in_range(),
        cursor.in_range(),
        last.in_range(),
        obstacles_in_range(obstacles@),
        screen.is_extent(),
        threshold_in_range(threshold),
    ensures
        r.0 == dragged_position(position, size, cursor, last, obstacles@, screen, threshold),
        r.1.plan() == solve_snap_spec(
            drag_candidate(position, size, cursor, last),
            ResizeHandle::DragSentinel,
            obstacles@,
            screen,
            threshold as int,
        ),
{
    let candidate = Rect {
        position: Vec2 { x: position.x + cursor.x - last.x, y: position.y + cursor.y - last.y },
        size,
    };
    let snap = solve_snap(candidate, ResizeHandle::DragSentinel, obstacles, screen, threshold);
    let x = clamp_extent(snap.position.x, screen.x - size.x);
    let y = clamp_extent(snap.position.y, screen.y - size.y);
    (Vec2 { x, y }, snap)
}

/// After a drag step a window that fits the screen lies on the screen.
pub proof fn lemma_drag_stays_on_screen(
    position: Vec2,
    size: Vec2,
    cursor: Vec2,
    last: Vec2,
    obstacles: Seq<Rect>,
    screen: Vec2,
    threshold: i32,
)
    requires
        0 <= size.x <= screen.x,
        0 <= size.y <= screen.y,
    ensures
        0 <= dragged_position(position, size, cursor, last, obstacles, screen, threshold).x
            <= screen.x - size.x,
        0 <= dragged_position(position, size, cursor, last, obstacles, screen, threshold).y
            <= screen.y - size.y,
{
}

/// A drag step never puts a window left of or above the screen's origin,
/// whatever its size.
pub proof fn lemma_drag_never_negative(
    position: Vec2,
    size: Vec2,
    cursor: Vec2,
    last: Vec2,
    obstacles: Seq<Rect>,
    screen: Vec2,
    threshold: i32,
)
    requires
        screen.is_extent(),
        size.in_range(),
    ensures
        0 <= dragged_position(position, size, cursor, last, obstacles, screen, threshold).x,
        0 <= dragged_position(position, size, cursor, last, obstacles, screen, threshold).y,
{
}

/// The record of a window on which a drag begins with the cursor at
/// `cursor`.
pub open spec fn drag_begun_record(w: Window, cursor: Vec2) -> Window {
    Window {
        drag_offset: Vec2 {
            x: (cursor.x - w.position.x) as i32,
            y: (cursor.y - w.position.y) as i32,
        },
        drag_handle: Some(ResizeHandle::DragSentinel),
        ..w
    }
}

/// The state after a drag-start event for `id`.
///
/// An event that names no live window changes nothing, and a maximized
/// or minimized window ignores the event. Without a pointer nothing
/// happens. Otherwise, if the window's position and the cursor are in
/// range, the cursor is remembered and the window becomes the one that
/// is dragged.
pub open spec fn drag_begun(g: GestureState, id: int, pointer: Option<Pointer>) -> GestureState {
    let s = g.entities;
    if is_window(s, id) {
        if !window_of(s, id).draggable() || pointer is None || !pointer.unwrap().cursor.in_range()
            || !window_of(s, id).position.in_range() {
            g
        } else {
            GestureState {
                entities: s.update(
                    id,
                    UiEntity {
                        role: Role::Window(
                            drag_begun_record(window_of(s, id), pointer.unwrap().cursor),
                        ),
                        ..s[id]
                    },
                ),
                manager: WindowManager {
                    is_dragging_window: true,
                    dragging_window_entity: Some(id as usize),
                    ..g.manager
                },
                last_cursor: Some(pointer.unwrap().cursor),
            }
        }
    } else {
        g
    }
}

/// The state after the drag-start events from the `i`-th on, in order.
pub open spec fn drag_begun_all(
    g: GestureState,
    events: Seq<WindowDragEvent>,
    pointer: Option<Pointer>,
    i: int,
) -> GestureState
    decreases events.len() - i,
{
    if i < 0 || i >= events.len() {
        g
    } else {
        drag_begun_all(
            drag_begun(g, events[i].window_entity as int, pointer),
            events,
            pointer,
            i + 1,
        )
    }
}

/// A drag is under way and can take a step: a cursor position is
/// remembered, the manager names a live window that is being dragged and
/// is neither maximized nor minimized, and every number involved is in
/// range.
pub open spec fn drag_ready(g: GestureState, p: Pointer) -> bool {
    &&& g.last_cursor matches Some(last)
    &&& g.manager.dragging_window_entity matches Some(d)
    &&& is_window(g.entities, d as int)
    &&& window_of(g.entities, d as int).drag_handle == Some(ResizeHandle::DragSentinel)
    &&& window_of(g.entities, d as int).draggable()
    &&& p.in_range()
    &&& last.in_range()
    &&& threshold_in_range(g.manager.snap_threshold)
    &&& window_rect(g.entities, d as int).in_range()
    &&& obstacles_in_range(snap_obstacles(g.entities, d as int))
}

/// The window that a ready drag moves.
pub open spec fn drag_subject(g: GestureState) -> int {
    g.manager.dragging_window_entity.unwrap() as int
}

/// Where a ready drag puts its window.
pub open spec fn drag_destination(g: GestureState, p: Pointer) -> Vec2 {
    let d = drag_subject(g);
    dragged_position(
        window_of(g.entities, d).position,
        window_of(g.entities, d).size,
        p.cursor,
        g.last_cursor.unwrap(),
        snap_obstacles(g.entities, d),
        p.screen,
        g.manager.snap_threshold,
    )
}

/// The solver's answer for the step of a ready drag.
pub open spec fn drag_plan(g: GestureState, p: Pointer) -> SnapPlan {
    let d = drag_subject(g);
    solve_snap_spec(
        drag_candidate(
            window_of(g.entities, d).position,
            window_of(g.entities, d).size,
            p.cursor,
            g.last_cursor.unwrap(),
        ),
        ResizeHandle::DragSentinel,
        snap_obstacles(g.entities, d),
        p.screen,
        g.manager.snap_threshold as int,
    )
}

/// The arena after a ready drag took its step: the dragged window and
/// its root node are at the new position, nothing else changed.
pub open spec fn drag_moved(g: GestureState, p: Pointer) -> Seq<UiEntity> {
    let d = drag_subject(g);
    let to = drag_destination(g, p);
    g.entities.update(
        d,
        UiEntity {
            role: Role::Window(Window { position: to, ..window_of(g.entities, d) }),
            node: Node { left: Val::Px(to.x), top: Val::Px(to.y), ..g.entities[d].node },
            ..g.entities[d]
        },
    )
}

/// The arena after the button was released: no live window is being
/// dragged any more.
pub open spec fn drag_handles_cleared(s: Seq<UiEntity>) -> Seq<UiEntity> {
    Seq::new(
        s.len(),
        |e: int|
            if is_window(s, e) && window_of(s, e).drag_handle == Some(ResizeHandle::DragSentinel) {
                UiEntity {
                    role: Role::Window(Window { drag_handle: None, ..window_of(s, e) }),
                    ..s[e]
                }
            } else {
                s[e]
            },
    )
}

/// The state after the pointer part of a drag frame.
///
/// While the button is held and a pointer is there, a ready drag takes
/// its step and the cursor is remembered. When the button is up, every
/// drag ends.
pub open spec fn drag_continued(
    g: GestureState,
    pressed: bool,
    pointer: Option<Pointer>,
) -> GestureState {
    if pressed {
        match pointer {
            Some(p) => GestureState {
                entities: if drag_ready(g, p) {
                    drag_moved(g, p)
                } else {
                    g.entities
                },
                last_cursor: Some(p.cursor),
                ..g
            },
            None => g,
        }
    } else {
        GestureState {
            entities: drag_handles_cleared(g.entities),
            manager: WindowManager {
                is_dragging_window: false,
                dragging_window_entity: None,
                ..g.manager
            },
            last_cursor: None,
        }
    }
}

/// The state after a whole drag frame: first the start events, then the
/// pointer part.
pub open spec fn drag_frame(
    g: GestureState,
    events: Seq<WindowDragEvent>,
    pressed: bool,
    pointer: Option<Pointer>,
) -> GestureState {
    drag_continued(drag_begun_all(g, events, pointer, 0), pressed, pointer)
}

/// The solver's answer of a drag frame: there is one exactly when the
/// drag took a step.
pub open spec fn drag_frame_snapped(
    g: GestureState,
    events: Seq<WindowDragEvent>,
    pressed: bool,
    pointer: Option<Pointer>,
) -> bool {
    let g1 = drag_begun_all(g, events, pointer, 0);
    pressed && pointer is Some && drag_ready(g1, pointer.unwrap())
}

/// Handles one drag-start event.
pub fn begin_drag(
    registry: &mut WindowRegistry,
    window_manager: &mut WindowManager,
    last_cursor_pos: &mut Option<Vec2>,
    window_entity: usize,
    pointer: Option<Pointer>,
)
    requires
        old(registry).wf(),
    ensures
        (GestureState {
            entities: final(registry).entities@,
            manager: *final(window_manager),
            last_cursor: *final(last_cursor_pos),
        }) == drag_begun(
            GestureState {
                entities: old(registry).entities@,
                manager: *old(window_manager),
                last_cursor: *old(last_cursor_pos),
            },
            window_entity as int,
            pointer,
        ),
        final(registry).wf(),
{
    let (known, draggable, position) = match registry.window(window_entity) {
        Some(w) => (true, !w.is_maximized && !w.is_minimized, w.position),
        None => (false, false, Vec2 { x: 0, y: 0 }),
    };
    if known {
        if !draggable {
            return ;
        }
        if let Some(p) = pointer {
            if p.cursor.check_in_range() && position.check_in_range() {
                *last_cursor_pos = Some(p.cursor);
                match &mut registry.entities[window_entity].role {
                    Role::Window(w) => {
                        w.drag_offset = Vec2 {
                            x: p.cursor.x - w.position.x,
                            y: p.cursor.y - w.position.y,
                        };
                        w.drag_handle = Some(ResizeHandle::DragSentinel);
                    },
                    _ => {},
                }
                window_manager.is_dragging_window = true;
                window_manager.dragging_window_entity = Some(window_entity);
            }
        }
    }
}

fn end_drags(registry: &mut WindowRegistry)
    requires
        old(registry).wf(),
    ensures
        final(registry).entities@ == drag_handles_cleared(old(registry).entities@),
        final(registry).wf(),
{
    let ghost s0 = registry.entities@;
    let mut e: usize = 0;
    while e < registry.entities.len()
        invariant
            e <= registry.entities.len(),
            registry.entities.len() == s0.len(),
            forall|j: int| 0 <= j < e ==> registry.entities@[j] == drag_handles_cleared(s0)[j],
            forall|j: int| e <= j < s0.len() ==> registry.entities@[j] == s0[j],
        decreases registry.entities.len() - e,
    {
        if registry.entities[e].alive {
            match &mut registry.entities[e].role {
                Role::Window(w) => {
                    let dragged = match w.drag_handle {
                        Some(ResizeHandle::DragSentinel) => true,
                        _ => false,
                    };
                    if dragged {
                        w.drag_handle = None;
                    }
                },
                _ => {},
            }
        }
        e = e + 1;
    }
    proof {
        assert(registry.entities@ =~= drag_handles_cleared(s0));
    }
}

/// The pointer part of a drag frame.
pub fn continue_drag(
    registry: &mut WindowRegistry,
    window_manager: &mut WindowManager,
    last_cursor_pos: &mut Option<Vec2>,
    pressed: bool,
    pointer: Option<Pointer>,
) -> (snap: Option<SnapResult>)
    requires
        old(registry).wf(),
    ensures
        (GestureState {
            entities: final(registry).entities@,
            manager: *final(window_manager),
            last_cursor: *final(last_cursor_pos),
        }) == drag_continued(
            GestureState {
                entities: old(registry).entities@,
                manager: *old(window_manager),
                last_cursor: *old(last_cursor_pos),
            },
            pressed,
            pointer,
        ),
        final(registry).wf(),
        snap is Some == (pressed && pointer is Some && drag_ready(
            GestureState {
                entities: old(registry).entities@,
                manager: *old(window_manager),
                last_cursor: *old(last_cursor_pos),
            },
            pointer.unwrap(),
        )),
        snap matches Some(r) ==> r.plan() == drag_plan(
            GestureState {
                entities: old(registry).entities@,
                manager: *old(window_manager),
                last_cursor: *old(last_cursor_pos),
            },
            pointer.unwrap(),
        ),
{
    let ghost g = GestureState {
        entities: registry.entities@,
        manager: *window_manager,
        last_cursor: *last_cursor_pos,
    };
    if !pressed {
        end_drags(registry);
        *last_cursor_pos = None;
        window_manager.is_dragging_window = false;
        window_manager.dragging_window_entity = None;
        return None;
    }
    let p = match pointer {
        Some(p) => p,
        None => {
            return None;
        },
    };
    let mut snap: Option<SnapResult> = None;
    if let Some(last) = *last_cursor_pos {
        if let Some(d) = window_manager.dragging_window_entity {
            let held = match registry.window(d) {
                Some(w) => {
                    let dragged = match w.drag_handle {
                        Some(ResizeHandle::DragSentinel) => true,
                        _ => false,
                    };
                    if dragged && !w.is_maximized && !w.is_minimized {
                        Some((w.position, w.size))
                    } else {
                        None
                    }
                },
                None => None,
            };
            if let Some((position, size)) = held {
                let threshold = window_manager.snap_threshold;
                if p.check_in_range() && last.check_in_range() && 0 <= threshold && threshold
                    <= PIXEL_LIMIT && position.check_in_range() && size.check_in_range() {
                    let obstacles = collect_obstacles(registry, d);
                    if check_obstacles_in_range(&obstacles) {
                        let step = drag_step(
                            position,
                            size,
                            p.cursor,
                            last,
                            &obstacles,
                            p.screen,
                            threshold,
                        );
                        let to = step.0;
                        match &mut registry.entities[d].role {
                            Role::Window(w) => {
                                w.position = to;
                            },
                            _ => {},
                        }
                        registry.entities[d].node.left = Val::Px(to.x);
                        registry.entities[d].node.top = Val::Px(to.y);
                        snap = Some(step.1);
                        proof {
                            assert(registry.entities@ =~= drag_moved(g, p));
                        }
                    }
                }
            }
        }
    }
    *last_cursor_pos = Some(p.cursor);
    snap
}

/// The drag controller's frame: takes the drag-start events of the frame
/// in order, then lets the drag that is under way follow the cursor, or
/// ends it when the button is up.
///
/// Returns the solver's answer if a window was moved.
pub fn handle_window_drag(
    drag_events: &Vec<WindowDragEvent>,
    registry: &mut WindowRegistry,
    pressed: bool,
    pointer: Option<Pointer>,
    last_cursor_pos: &mut Option<Vec2>,
    window_manager: &mut WindowManager,
) -> (snap: Option<SnapResult>)
    requires
        old(registry).wf(),
    ensures
        (GestureState {
            entities: final(registry).entities@,
            manager: *final(window_manager),
            last_cursor: *final(last_cursor_pos),
        }) == drag_frame(
            GestureState {
                entities: old(registry).entities@,
                manager: *old(window_manager),
                last_cursor: *old(last_cursor_pos),
            },
            drag_events@,
            pressed,
            pointer,
        ),
        final(registry).wf(),
        snap is Some == drag_frame_snapped(
            GestureState {
                entities: old(registry).entities@,
                manager: *old(window_manager),
                last_cursor: *old(last_cursor_pos),
            },
            drag_events@,
            pressed,
            pointer,
        ),
        snap matches Some(r) ==> r.plan() == drag_plan(
            drag_begun_all(
                GestureState {
                    entities: old(registry).entities@,
                    manager: *old(window_manager),
                    last_cursor: *old(last_cursor_pos),
                },
                drag_events@,
                pointer,
                0,
            ),
            pointer.unwrap(),
        ),
{
    let ghost g0 = GestureState {
        entities: registry.entities@,
        manager: *window_manager,
        last_cursor: *last_cursor_pos,
    };
    let mut i: usize = 0;
    while i < drag_events.len()
        invariant
            i <= drag_events.len(),
            registry.wf(),
            drag_begun_all(
                GestureState {
                    entities: registry.entities@,
                    manager: *window_manager,
                    last_cursor: *last_cursor_pos,
                },
                drag_events@,
                pointer,
                i as int,
            ) == drag_begun_all(g0, drag_events@, pointer, 0),
        decreases drag_events.len() - i,
    {
        begin_drag(
            registry,
            window_manager,
            last_cursor_pos,
            drag_events[i].window_entity,
            pointer,
        );
        i = i + 1;
    }
    continue_drag(registry, window_manager, last_cursor_pos, pressed, pointer)
}

/// A drag step moves one window and no other: every other entity is as
/// it was, and the dragged window keeps its size.
pub proof fn lemma_drag_moves_one_window(g: GestureState, p: Pointer)
    requires
        drag_ready(g, p),
    ensures
        drag_moved(g, p).len() == g.entities.len(),
        forall|j: int|
            0 <= j < g.entities.len() && j != drag_subject(g) ==> #[trigger] drag_moved(g, p)[j]
                == g.entities[j],
        window_of(drag_moved(g, p), drag_subject(g)).size == window_of(
            g.entities,
            drag_subject(g),
        ).size,
        window_of(drag_moved(g, p), drag_subject(g)).position == drag_destination(g, p),
{
}

/// After the step of a drag, a dragged window that fits the screen lies
/// on the screen.
pub proof fn lemma_dragged_window_on_screen(g: GestureState, p: Pointer)
    requires
        drag_ready(g, p),
        0 <= window_of(g.entities, drag_subject(g)).size.x <= p.screen.x,
        0 <= window_of(g.entities, drag_subject(g)).size.y <= p.screen.y,
    ensures
        0 <= window_of(drag_moved(g, p), drag_subject(g)).position.x <= p.screen.x - window_of(
            drag_moved(g, p),
            drag_subject(g),
        ).size.x,
        0 <= window_of(drag_moved(g, p), drag_subject(g)).position.y <= p.screen.y - window_of(
            drag_moved(g, p),
            drag_subject(g),
        ).size.y,
{
}

/// A drag frame leaves the z-order counter, the snap threshold and the
/// queue of content replacements alone.
pub proof fn lemma_drag_frame_keeps_counters(
    g: GestureState,
    events: Seq<WindowDragEvent>,
    pressed: bool,
    pointer: Option<Pointer>,
)
    ensures
        drag_frame(g, events, pressed, pointer).manager.next_z_index == g.manager.next_z_index,
        drag_frame(g, events, pressed, pointer).manager.snap_threshold == g.manager.snap_threshold,
        drag_frame(g, events, pressed, pointer).manager.pending_content_updates
            == g.manager.pending_content_updates,
        drag_frame(g, events, pressed, pointer).manager.is_resizing_window
            == g.manager.is_resizing_window,
{
    lemma_drag_begun_keeps_counters(g, events, pointer, 0);
}

proof fn lemma_drag_begun_keeps_counters(
    g: GestureState,
    events: Seq<WindowDragEvent>,
    pointer: Option<Pointer>,
    i: int,
)
    ensures
        drag_begun_all(g, events, pointer, i).manager.next_z_index == g.manager.next_z_index,
        drag_begun_all(g, events, pointer, i).manager.snap_threshold == g.manager.snap_threshold,
        drag_begun_all(g, events, pointer, i).manager.pending_content_updates
            == g.manager.pending_content_updates,
        drag_begun_all(g, events, pointer, i).manager.is_resizing_window
            == g.manager.is_resizing_window,
    decreases events.len() - i,
{
    if 0 <= i < events.len() {
        lemma_drag_begun_keeps_counters(
            drag_begun(g, events[i].window_entity as int, pointer),
            events,
            pointer,
            i + 1,
        );
    }
}

} // verus!
