//! The resize controller: a handle moves its own edges of one window,
//! the opposite edges stay where they are, and the window never gets
//! smaller than its minimum size.

use vstd::prelude::*;
use crate::events::WindowResizeEvent;
use crate::geometry::{max_i32, max_int, min_i32, min_int, Rect, Vec2, PIXEL_LIMIT};
use crate::gesture::{
    check_obstacles_in_range, collect_obstacles, snap_obstacles, threshold_in_range, window_rect,
    GestureState, Pointer,
};
use crate::handle::{AxisRule, ResizeHandle};
use crate::layout::Val;
use crate::manager::WindowManager;
use crate::min_size::{
    calculate_window_minimum_size, window_minimum_height, window_minimum_width,
};
use crate::registry::{is_window, window_of, Role, UiEntity, WindowRegistry};
use crate::snap::{
    first_corner_obstacle, first_edge_obstacle, lemma_first_corner_obstacle_hits,
    lemma_first_edge_obstacle_hits, obstacles_in_range, solve_snap, solve_snap_spec, SnapPlan,
    SnapResult,
};
use crate::transitions::node_placed;
use crate::window::Window;

verus! {

/// One axis of a window: where it starts and how long it is.
pub struct Span {
    pub lo: int,
    pub len: int,
}

/// An axis after its edit rule took the cursor's movement `delta`.
///
/// A high edge grows by `delta`, not below `min_len` and then not beyond
/// the screen's `extent`. A low edge shrinks the axis by `delta`, not
/// below `min_len`, and moves so that the high edge stays; if that would
/// put it before zero, the axis stays as it was.
pub open spec fn resized_axis(
    rule: AxisRule,
    lo: int,
    len: int,
    delta: int,
    min_len: int,
    extent: int,
) -> Span {
    match rule {
        AxisRule::MoveHigh => Span {
            lo,
            len: min_int(max_int(len + delta, min_len), extent - lo),
        },
        AxisRule::MoveLow => {
            let proposed = max_int(len - delta, min_len);
            if lo + (len - proposed) >= 0 {
                Span { lo: lo + (len - proposed), len: proposed }
            } else {
                Span { lo, len }
            }
        },
        _ => Span { lo, len },
    }
}

/// An axis lies on the screen and is not shorter than its minimum.
pub open spec fn axis_acceptable(a: Span, min_len: int, extent: int) -> bool {
    0 <= a.lo && a.lo + a.len <= extent && a.len >= min_len
}

/// The axis that a resize step settles on: the snapped one if it is
/// acceptable, else the one that the edit rule gave.
pub open spec fn settled_axis(ruled: Span, snapped: Span, min_len: int, extent: int) -> Span {
    if axis_acceptable(snapped, min_len, extent) {
        snapped
    } else {
        ruled
    }
}

/// The rectangle that the edit rules of `handle` give.
pub open spec fn resize_candidate(
    position: Vec2,
    size: Vec2,
    handle: ResizeHandle,
    cursor: Vec2,
    last: Vec2,
    min_size: Vec2,
    screen: Vec2,
) -> Rect {
    let ax = resized_axis(
        handle.horizontal_rule(),
        position.x as int,
        size.x as int,
        cursor.x - last.x,
        min_size.x as int,
        screen.x as int,
    );
    let ay = resized_axis(
        handle.vertical_rule(),
        position.y as int,
        size.y as int,
        cursor.y - last.y,
        min_size.y as int,
        screen.y as int,
    );
    Rect {
        position: Vec2 { x: ax.lo as i32, y: ay.lo as i32 },
        size: Vec2 { x: ax.len as i32, y: ay.len as i32 },
    }
}

/// The solver's answer for the candidate of a resize step.
pub open spec fn resize_plan(
    position: Vec2,
    size: Vec2,
    handle: ResizeHandle,
    cursor: Vec2,
    last: Vec2,
    min_size: Vec2,
    obstacles: Seq<Rect>,
    screen: Vec2,
    threshold: i32,
) -> SnapPlan {
    solve_snap_spec(
        resize_candidate(position, size, handle, cursor, last, min_size, screen),
        handle,
        obstacles,
        screen,
        threshold as int,
    )
}

/// The rectangle of a window after a resize step.
pub open spec fn resized_rect(
    position: Vec2,
    size: Vec2,
    handle: ResizeHandle,
    cursor: Vec2,
    last: Vec2,
    min_size: Vec2,
    obstacles: Seq<Rect>,
    screen: Vec2,
    threshold: i32,
) -> Rect {
    let c = resize_candidate(position, size, handle, cursor, last, min_size, screen);
    let plan = resize_plan(
        position,
        size,
        handle,
        cursor,
        last,
        min_size,
        obstacles,
        screen,
        threshold,
    );
    let ax = settled_axis(
        Span { lo: c.position.x as int, len: c.size.x as int },
        Span { lo: plan.x, len: plan.w },
        min_size.x as int,
        screen.x as int,
    );
    let ay = settled_axis(
        Span { lo: c.position.y as int, len: c.size.y as int },
        Span { lo: plan.y, len: plan.h },
        min_size.y as int,
        screen.y as int,
    );
    Rect {
        position: Vec2 { x: ax.lo as i32, y: ay.lo as i32 },
        size: Vec2 { x: ax.len as i32, y: ay.len as i32 },
    }
}

fn resize_axis(rule: AxisRule, lo: i32, len: i32, delta: i32, min_len: i32, extent: i32) -> (r: (
    i32,
    i32,
))
    requires
        -PIXEL_LIMIT <= lo <= PIXEL_LIMIT,
        -PIXEL_LIMIT <= len <= PIXEL_LIMIT,
        -2 * PIXEL_LIMIT <= delta <= 2 * PIXEL_LIMIT,
        0 <= min_len <= PIXEL_LIMIT,
        0 <= extent <= PIXEL_LIMIT,
    ensures
        (Span { lo: r.0 as int, len: r.1 as int }) == resized_axis(
            rule,
            lo as int,
            len as int,
            delta as int,
            min_len as int,
            extent as int,
        ),
        -2 * PIXEL_LIMIT <= r.0 <= 2 * PIXEL_LIMIT,
        -2 * PIXEL_LIMIT <= r.1 <= 2 * PIXEL_LIMIT,
{
    match rule {
        AxisRule::MoveHigh => (lo, min_i32(max_i32(len + delta, min_len), extent - lo)),
        AxisRule::MoveLow => {
            let proposed = max_i32(len - delta, min_len);
            let moved = lo + (len - proposed);
            if moved >= 0 {
                (moved, proposed)
            } else {
                (lo, len)
            }
        },
        _ => (lo, len),
    }
}

fn settle_axis(ruled: (i32, i32), snapped: (i32, i32), min_len: i32, extent: i32) -> (r: (
    i32,
    i32,
))
    requires
        -PIXEL_LIMIT * 16 <= snapped.0 <= PIXEL_LIMIT * 16,
        -PIXEL_LIMIT * 16 <= snapped.1 <= PIXEL_LIMIT * 16,
    ensures
        (Span { lo: r.0 as int, len: r.1 as int }) == settled_axis(
            Span { lo: ruled.0 as int, len: ruled.1 as int },
            Span { lo: snapped.0 as int, len: snapped.1 as int },
            min_len as int,
            extent as int,
        ),
{
    if 0 <= snapped.0 && snapped.0 + snapped.1 <= extent && snapped.1 >= min_len {
        snapped
    } else {
        ruled
    }
}

/// One step of a resize: the new rectangle of the window and the
/// solver's answer for the candidate.
pub fn resize_step(
    position: Vec2,
    size: Vec2,
    handle: ResizeHandle,
    cursor: Vec2,
    last: Vec2,
    min_size: Vec2,
    obstacles: &Vec<Rect>,
    screen: Vec2,
    threshold: i32,
) -> (r: (Rect, SnapResult))
    requires
        position.in_range(),
        size.in_range(),
        cursor.in_range(),
        last.in_range(),
        min_size.is_extent(),
        obstacles_in_range(obstacles@),
        screen.is_extent(),
        threshold_in_range(threshold),
    ensures
        r.0 == resized_rect(
            position,
            size,
            handle,
            cursor,
            last,
            min_size,
            obstacles@,
            screen,
            threshold,
        ),
        r.1.plan() == resize_plan(
            position,
            size,
            handle,
            cursor,
            last,
            min_size,
            obstacles@,
            screen,
            threshold,
        ),
{
    let ax = resize_axis(
        handle.rule_x(),
        position.x,
        size.x,
        cursor.x - last.x,
        min_size.x,
        screen.x,
    );
    let ay = resize_axis(
        handle.rule_y(),
        position.y,
        size.y,
        cursor.y - last.y,
        min_size.y,
        screen.y,
    );
    let candidate = Rect {
        position: Vec2 { x: ax.0, y: ay.0 },
        size: Vec2 { x: ax.1, y: ay.1 },
    };
    let snap = solve_snap(candidate, handle, obstacles, screen, threshold);
    proof {
        lemma_plan_in_reach(candidate, handle, obstacles@, screen, threshold as int);
    }
    let sx = settle_axis(ax, (snap.position.x, snap.size.x), min_size.x, screen.x);
    let sy = settle_axis(ay, (snap.position.y, snap.size.y), min_size.y, screen.y);
    (Rect { position: Vec2 { x: sx.0, y: sy.0 }, size: Vec2 { x: sx.1, y: sy.1 } }, snap)
}

/// The solver's answer for a proposal stays within sixteen times the
/// range of stored coordinates.
proof fn lemma_plan_in_reach(
    cand: Rect,
    handle: ResizeHandle,
    obstacles: Seq<Rect>,
    screen: Vec2,
    t: int,
)
    requires
        cand.in_reach(),
        obstacles_in_range(obstacles),
        screen.is_extent(),
    ensures
        -PIXEL_LIMIT * 16 <= solve_snap_spec(cand, handle, obstacles, screen, t).x <= PIXEL_LIMIT
            * 16,
        -PIXEL_LIMIT * 16 <= solve_snap_spec(cand, handle, obstacles, screen, t).y <= PIXEL_LIMIT
            * 16,
        -PIXEL_LIMIT * 16 <= solve_snap_spec(cand, handle, obstacles, screen, t).w <= PIXEL_LIMIT
            * 16,
        -PIXEL_LIMIT * 16 <= solve_snap_spec(cand, handle, obstacles, screen, t).h <= PIXEL_LIMIT
            * 16,
{
    let hx = handle.horizontal_rule();
    let hy = handle.vertical_rule();
    let i3 = first_corner_obstacle(cand, hx, hy, obstacles, t, 0);
    lemma_first_corner_obstacle_hits(cand, hx, hy, obstacles, t, 0);
    if 0 <= i3 < obstacles.len() {
        assert(obstacles[i3].in_range());
    }
    let ix = first_edge_obstacle(hx, cand, obstacles, true, t, 0);
    lemma_first_edge_obstacle_hits(hx, cand, obstacles, true, t, 0);
    if 0 <= ix < obstacles.len() {
        assert(obstacles[ix].in_range());
    }
    let iy = first_edge_obstacle(hy, cand, obstacles, false, t, 0);
    lemma_first_edge_obstacle_hits(hy, cand, obstacles, false, t, 0);
    if 0 <= iy < obstacles.len() {
        assert(obstacles[iy].in_range());
    }
}

/// A low-edge resize leaves the high edge where it was, and a high-edge
/// resize leaves the low edge where it was.
pub proof fn lemma_resize_anchors_opposite_edge(
    rule: AxisRule,
    lo: int,
    len: int,
    delta: int,
    min_len: int,
    extent: int,
)
    ensures
        rule == AxisRule::MoveLow ==> resized_axis(rule, lo, len, delta, min_len, extent).lo
            + resized_axis(rule, lo, len, delta, min_len, extent).len == lo + len,
        rule == AxisRule::MoveHigh ==> resized_axis(rule, lo, len, delta, min_len, extent).lo == lo,
        rule == AxisRule::Fixed ==> resized_axis(rule, lo, len, delta, min_len, extent) == (Span {
            lo,
            len,
        }),
{
}

/// A low-edge resize that would put the edge before zero changes neither
/// the position nor the size of that axis.
pub proof fn lemma_resize_rejects_negative(lo: int, len: int, delta: int, min_len: int, extent: int)
    requires
        lo + (len - max_int(len - delta, min_len)) < 0,
    ensures
        resized_axis(AxisRule::MoveLow, lo, len, delta, min_len, extent) == (Span { lo, len }),
{
}

/// An axis that lies on the screen and has its minimum length still does
/// after a resize step, snapped or not.
pub proof fn lemma_resize_keeps_axis_acceptable(
    rule: AxisRule,
    lo: int,
    len: int,
    delta: int,
    min_len: int,
    extent: int,
    snapped: Span,
)
    requires
        axis_acceptable(Span { lo, len }, min_len, extent),
    ensures
        axis_acceptable(
            settled_axis(
                resized_axis(rule, lo, len, delta, min_len, extent),
                snapped,
                min_len,
                extent,
            ),
            min_len,
            extent,
        ),
{
}

/// The state after a resize-start event for `id`.
///
/// An event that names no live window changes nothing, and a window
/// that is collapsed, maximized or minimized ignores the event. Without
/// a pointer nothing happens. Otherwise the cursor is remembered and
/// `id` becomes what the gesture moves.
pub open spec fn resize_begun(g: GestureState, id: int, pointer: Option<Pointer>) -> GestureState {
    if !is_window(g.entities, id) || !window_of(g.entities, id).resizable() {
        g
    } else {
        match pointer {
            Some(p) => GestureState {
                manager: WindowManager {
                    is_dragging_window: true,
                    dragging_window_entity: Some(id as usize),
                    ..g.manager
                },
                last_cursor: Some(p.cursor),
                ..g
            },
            None => g,
        }
    }
}

/// The state after the resize-start events from the `i`-th on, in order.
pub open spec fn resize_begun_all(
    g: GestureState,
    events: Seq<WindowResizeEvent>,
    pointer: Option<Pointer>,
    i: int,
) -> GestureState
    decreases events.len() - i,
{
    if i < 0 || i >= events.len() {
        g
    } else {
        resize_begun_all(
            resize_begun(g, events[i].window_entity as int, pointer),
            events,
            pointer,
            i + 1,
        )
    }
}

/// The gesture names a live window that does not take part in a resize:
/// the whole pointer part is skipped.
pub open spec fn resize_blocked(g: GestureState) -> bool {
    &&& g.last_cursor is Some
    &&& g.manager.dragging_window_entity matches Some(r)
    &&& is_window(g.entities, r as int)
    &&& !window_of(g.entities, r as int).resizable()
}

/// A resize is under way and can take a step.
pub open spec fn resize_ready(g: GestureState, p: Pointer) -> bool {
    &&& g.last_cursor matches Some(last)
    &&& g.manager.dragging_window_entity matches Some(r)
    &&& is_window(g.entities, r as int)
    &&& window_of(g.entities, r as int).resizable()
    &&& window_of(g.entities, r as int).drag_handle matches Some(handle)
    &&& handle != ResizeHandle::DragSentinel
    &&& p.in_range()
    &&& last.in_range()
    &&& threshold_in_range(g.manager.snap_threshold)
    &&& window_rect(g.entities, r as int).in_range()
    &&& obstacles_in_range(snap_obstacles(g.entities, r as int))
}

/// The minimum size of window `r`.
pub open spec fn minimum_size_of(s: Seq<UiEntity>, r: int) -> Vec2 {
    Vec2 { x: window_minimum_width(s, r) as i32, y: window_minimum_height(s, r) as i32 }
}

/// The rectangle that a ready resize gives its window.
pub open spec fn resize_destination(g: GestureState, p: Pointer) -> Rect {
    let r = g.manager.dragging_window_entity.unwrap() as int;
    resized_rect(
        window_of(g.entities, r).position,
        window_of(g.entities, r).size,
        window_of(g.entities, r).drag_handle.unwrap(),
        p.cursor,
        g.last_cursor.unwrap(),
        minimum_size_of(g.entities, r),
        snap_obstacles(g.entities, r),
        p.screen,
        g.manager.snap_threshold,
    )
}

/// The solver's answer for the step of a ready resize.
pub open spec fn resize_frame_plan(g: GestureState, p: Pointer) -> SnapPlan {
    let r = g.manager.dragging_window_entity.unwrap() as int;
    resize_plan(
        window_of(g.entities, r).position,
        window_of(g.entities, r).size,
        window_of(g.entities, r).drag_handle.unwrap(),
        p.cursor,
        g.last_cursor.unwrap(),
        minimum_size_of(g.entities, r),
        snap_obstacles(g.entities, r),
        p.screen,
        g.manager.snap_threshold,
    )
}

/// The arena after a ready resize took its step: the resized window and
/// its root node have the new rectangle, nothing else changed.
pub open spec fn resize_applied(g: GestureState, p: Pointer) -> Seq<UiEntity> {
    let r = g.manager.dragging_window_entity.unwrap() as int;
    let to = resize_destination(g, p);
    g.entities.update(
        r,
        UiEntity {
            role: Role::Window(
                Window { position: to.position, size: to.size, ..window_of(g.entities, r) },
            ),
            node: node_placed(g.entities[r].node, to.position, to.size),
            ..g.entities[r]
        },
    )
}

/// The arena after the button was released: no live window is being
/// resized any more.
pub open spec fn resize_handles_cleared(s: Seq<UiEntity>) -> Seq<UiEntity> {
    Seq::new(
        s.len(),
        |e: int|
            if is_window(s, e) && window_of(s, e).drag_handle is Some && window_of(s, e).drag_handle
                != Some(ResizeHandle::DragSentinel) {
                UiEntity {
                    role: Role::Window(Window { drag_handle: None, ..window_of(s, e) }),
                    ..s[e]
                }
            } else {
                s[e]
            },
    )
}

/// The state after the pointer part of a resize frame.
pub open spec fn resize_continued(
    g: GestureState,
    pressed: bool,
    pointer: Option<Pointer>,
) -> GestureState {
    if pressed {
        match pointer {
            Some(p) => if resize_blocked(g) {
                g
            } else {
                GestureState {
                    entities: if resize_ready(g, p) {
                        resize_applied(g, p)
                    } else {
                        g.entities
                    },
                    last_cursor: Some(p.cursor),
                    ..g
                }
            },
            None => g,
        }
    } else {
        GestureState {
            entities: resize_handles_cleared(g.entities),
            manager: WindowManager {
                is_resizing_window: false,
                is_dragging_window: false,
                dragging_window_entity: if g.manager.is_dragging_window {
                    None
                } else {
                    g.manager.dragging_window_entity
                },
                ..g.manager
            },
            last_cursor: None,
        }
    }
}

/// The state after a whole resize frame: first the start events, then
/// the pointer part.
pub open spec fn resize_frame(
    g: GestureState,
    events: Seq<WindowResizeEvent>,
    pressed: bool,
    pointer: Option<Pointer>,
) -> GestureState {
    resize_continued(resize_begun_all(g, events, pointer, 0), pressed, pointer)
}

/// A resize frame took a step.
pub open spec fn resize_stepped(g: GestureState, pressed: bool, pointer: Option<Pointer>) -> bool {
    pressed && pointer is Some && !resize_blocked(g) && resize_ready(g, pointer.unwrap())
}

/// Handles one resize-start event.
pub fn begin_resize(
    registry: &WindowRegistry,
    window_manager: &mut WindowManager,
    last_cursor_pos: &mut Option<Vec2>,
    window_entity: usize,
    pointer: Option<Pointer>,
)
    ensures
        (GestureState {
            entities: registry.entities@,
            manager: *final(window_manager),
            last_cursor: *final(last_cursor_pos),
        }) == resize_begun(
            GestureState {
                entities: registry.entities@,
                manager: *old(window_manager),
                last_cursor: *old(last_cursor_pos),
            },
            window_entity as int,
            pointer,
        ),
{
    let ignored = match registry.window(window_entity) {
        Some(w) => w.is_collapsed || w.is_maximized || w.is_minimized,
        None => true,
    };
    if ignored {
        return ;
    }
    if let Some(p) = pointer {
        *last_cursor_pos = Some(p.cursor);
        window_manager.is_dragging_window = true;
        window_manager.dragging_window_entity = Some(window_entity);
    }
}

fn end_resizes(registry: &mut WindowRegistry)
    requires
        old(registry).wf(),
    ensures
        final(registry).entities@ == resize_handles_cleared(old(registry).entities@),
        final(registry).wf(),
{
    let ghost s0 = registry.entities@;
    let mut e: usize = 0;
    while e < registry.entities.len()
        invariant
            e <= registry.entities.len(),
            registry.entities.len() == s0.len(),
            forall|j: int| 0 <= j < e ==> registry.entities@[j] == resize_handles_cleared(s0)[j],
            forall|j: int| e <= j < s0.len() ==> registry.entities@[j] == s0[j],
        decreases registry.entities.len() - e,
    {
        if registry.entities[e].alive {
            match &mut registry.entities[e].role {
                Role::Window(w) => {
                    let resized = match w.drag_handle {
                        Some(ResizeHandle::DragSentinel) => false,
                        Some(_) => true,
                        None => false,
                    };
                    if resized {
                        w.drag_handle = None;
                    }
                },
                _ => {},
            }
        }
        e = e + 1;
    }
    proof {
        assert(registry.entities@ =~= resize_handles_cleared(s0));
    }
}

/// The pointer part of a resize frame.
pub fn continue_resize(
    registry: &mut WindowRegistry,
    window_manager: &mut WindowManager,
    last_cursor_pos: &mut Option<Vec2>,
    pressed: bool,
    pointer: Option<Pointer>,
) -> (snap: Option<SnapResult>)
    requires
        old(registry).wf(),
    ensures
        (GestureState {
            entities: final(registry).entities@,
            manager: *final(window_manager),
            last_cursor: *final(last_cursor_pos),
        }) == resize_continued(
            GestureState {
                entities: old(registry).entities@,
                manager: *old(window_manager),
                last_cursor: *old(last_cursor_pos),
            },
            pressed,
            pointer,
        ),
        final(registry).wf(),
        snap is Some == resize_stepped(
            GestureState {
                entities: old(registry).entities@,
                manager: *old(window_manager),
                last_cursor: *old(last_cursor_pos),
            },
            pressed,
            pointer,
        ),
        snap matches Some(r) ==> r.plan() == resize_frame_plan(
            GestureState {
                entities: old(registry).entities@,
                manager: *old(window_manager),
                last_cursor: *old(last_cursor_pos),
            },
            pointer.unwrap(),
        ),
{
    let ghost g = GestureState {
        entities: registry.entities@,
        manager: *window_manager,
        last_cursor: *last_cursor_pos,
    };
    if !pressed {
        end_resizes(registry);
        *last_cursor_pos = None;
        window_manager.is_resizing_window = false;
        if window_manager.is_dragging_window {
            window_manager.is_dragging_window = false;
            window_manager.dragging_window_entity = None;
        }
        return None;
    }
    let p = match pointer {
        Some(p) => p,
        None => {
            return None;
        },
    };
    let mut snap: Option<SnapResult> = None;
    if let Some(last) = *last_cursor_pos {
        if let Some(r) = window_manager.dragging_window_entity {
            let held = match registry.window(r) {
                Some(w) => Some(
                    (
                        w.is_collapsed || w.is_maximized || w.is_minimized,
                        w.drag_handle,
                        w.position,
                        w.size,
                    ),
                ),
                None => None,
            };
            if let Some((ignored, drag_handle, position, size)) = held {
                if ignored {
                    return None;
                }
                let handle = match drag_handle {
                    Some(ResizeHandle::DragSentinel) => None,
                    other => other,
                };
                if let Some(handle_type) = handle {
                    let threshold = window_manager.snap_threshold;
                    if p.check_in_range() && last.check_in_range() && 0 <= threshold && threshold
                        <= PIXEL_LIMIT && position.check_in_range() && size.check_in_range() {
                        let obstacles = collect_obstacles(registry, r);
                        if check_obstacles_in_range(&obstacles) {
                            let min_size = calculate_window_minimum_size(registry, r);
                            let step = resize_step(
                                position,
                                size,
                                handle_type,
                                p.cursor,
                                last,
                                min_size,
                                &obstacles,
                                p.screen,
                                threshold,
                            );
                            let to = step.0;
                            match &mut registry.entities[r].role {
                                Role::Window(w) => {
                                    w.position = to.position;
                                    w.size = to.size;
                                },
                                _ => {},
                            }
                            registry.entities[r].node.left = Val::Px(to.position.x);
                            registry.entities[r].node.top = Val::Px(to.position.y);
                            registry.entities[r].node.width = Val::Px(to.size.x);
                            registry.entities[r].node.height = Val::Px(to.size.y);
                            snap = Some(step.1);
                            proof {
                                assert(registry.entities@ =~= resize_applied(g, p));
                            }
                        }
                    }
                }
            }
        }
    }
    *last_cursor_pos = Some(p.cursor);
    snap
}

/// The resize controller's frame: takes the resize-start events of the
/// frame in order, then lets the resize that is under way follow the
/// cursor, or ends it when the button is up.
///
/// Returns the solver's answer if a window was resized.
pub fn handle_window_resize(
    resize_events: &Vec<WindowResizeEvent>,
    registry: &mut WindowRegistry,
    pressed: bool,
    pointer: Option<Pointer>,
    last_cursor_pos: &mut Option<Vec2>,
    window_manager: &mut WindowManager,
) -> (snap: Option<SnapResult>)
    requires
        old(registry).wf(),
    ensures
        (GestureState {
            entities: final(registry).entities@,
            manager: *final(window_manager),
            last_cursor: *final(last_cursor_pos),
        }) == resize_frame(
            GestureState {
                entities: old(registry).entities@,
                manager: *old(window_manager),
                last_cursor: *old(last_cursor_pos),
            },
            resize_events@,
            pressed,
            pointer,
        ),
        final(registry).wf(),
        snap is Some == resize_stepped(
            resize_begun_all(
                GestureState {
                    entities: old(registry).entities@,
                    manager: *old(window_manager),
                    last_cursor: *old(last_cursor_pos),
                },
                resize_events@,
                pointer,
                0,
            ),
            pressed,
            pointer,
        ),
        snap matches Some(r) ==> r.plan() == resize_frame_plan(
            resize_begun_all(
                GestureState {
                    entities: old(registry).entities@,
                    manager: *old(window_manager),
                    last_cursor: *old(last_cursor_pos),
                },
                resize_events@,
                pointer,
                0,
            ),
            pointer.unwrap(),
        ),
{
    let ghost g0 = GestureState {
        entities: registry.entities@,
        manager: *window_manager,
        last_cursor: *last_cursor_pos,
    };
    let mut i: usize = 0;
    while i < resize_events.len()
        invariant
            i <= resize_events.len(),
            registry.wf(),
            registry.entities@ == g0.entities,
            resize_begun_all(
                GestureState {
                    entities: registry.entities@,
                    manager: *window_manager,
                    last_cursor: *last_cursor_pos,
                },
                resize_events@,
                pointer,
                i as int,
            ) == resize_begun_all(g0, resize_events@, pointer, 0),
        decreases resize_events.len() - i,
    {
        begin_resize(
            registry,
            window_manager,
            last_cursor_pos,
            resize_events[i].window_entity,
            pointer,
        );
        i = i + 1;
    }
    continue_resize(registry, window_manager, last_cursor_pos, pressed, pointer)
}

/// A resize step changes one window and no other.
pub proof fn lemma_resize_changes_one_window(g: GestureState, p: Pointer)
    requires
        resize_ready(g, p),
    ensures
        resize_applied(g, p).len() == g.entities.len(),
        forall|j: int|
            0 <= j < g.entities.len() && j != g.manager.dragging_window_entity.unwrap()
                ==> #[trigger] resize_applied(g, p)[j] == g.entities[j],
{
}

/// The axis that a resize step settles on is the one its edit rule gave
/// or one that lies on the screen with the minimum length: a snap can
/// still carry an edge whose proposal was rejected onto the screen's
/// edge, but never off the screen.
pub proof fn lemma_settled_axis(ruled: Span, snapped: Span, min_len: int, extent: int)
    ensures
        settled_axis(ruled, snapped, min_len, extent) == ruled || axis_acceptable(
            settled_axis(ruled, snapped, min_len, extent),
            min_len,
            extent,
        ),
{
}

/// A resize frame leaves the z-order counter, the snap threshold and the
/// queue of content replacements alone.
pub proof fn lemma_resize_frame_keeps_counters(
    g: GestureState,
    events: Seq<WindowResizeEvent>,
    pressed: bool,
    pointer: Option<Pointer>,
)
    ensures
        resize_frame(g, events, pressed, pointer).manager.next_z_index == g.manager.next_z_index,
        resize_frame(g, events, pressed, pointer).manager.snap_threshold
            == g.manager.snap_threshold,
        resize_frame(g, events, pressed, pointer).manager.pending_content_updates
            == g.manager.pending_content_updates,
{
    lemma_resize_begun_keeps_counters(g, events, pointer, 0);
}

proof fn lemma_resize_begun_keeps_counters(
    g: GestureState,
    events: Seq<WindowResizeEvent>,
    pointer: Option<Pointer>,
    i: int,
)
    ensures
        resize_begun_all(g, events, pointer, i).manager.next_z_index == g.manager.next_z_index,
        resize_begun_all(g, events, pointer, i).manager.snap_threshold == g.manager.snap_threshold,
        resize_begun_all(g, events, pointer, i).manager.pending_content_updates
            == g.manager.pending_content_updates,
        resize_begun_all(g, events, pointer, i).manager.is_resizing_window
            == g.manager.is_resizing_window,
    decreases events.len() - i,
{
    if 0 <= i < events.len() {
        lemma_resize_begun_keeps_counters(
            resize_begun(g, events[i].window_entity as int, pointer),
            events,
            pointer,
            i + 1,
        );
    }
}

} // verus!
