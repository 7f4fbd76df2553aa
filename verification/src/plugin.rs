//! One frame of the window manager: every controller, once, in a fixed
//! order. A window may be read and written by several controllers in a
//! row, so the order matters: routing comes first, a resize is applied
//! before a drag, and the minimum sizes are enforced last.

use vstd::prelude::*;
use crate::chrome::{handles_synced, update_resize_handle_positions};
use crate::drag::{
    drag_begun_all, drag_frame, drag_frame_snapped, drag_plan, handle_window_drag,
    lemma_drag_frame_keeps_counters,
};
use crate::events::WindowFocusEvent;
use crate::geometry::Vec2;
use crate::gesture::{GestureState, Pointer};
use crate::lifecycle::{
    active_after_closes, closed_all, content_flushed, content_placements, gesture_ended,
    handle_window_close, process_pending_content_updates, ContentPlacement,
};
use crate::manager::{ContentUpdate, WindowManager};
use crate::min_size::{enforce_window_minimum_sizes, enforced_from};
use crate::registry::{UiEntity, WindowRegistry};
use crate::resize::{
    handle_window_resize, lemma_resize_frame_keeps_counters, resize_begun_all, resize_frame,
    resize_frame_plan, resize_stepped,
};
use crate::router::{
    buttons_routed, focus_clicks, handle_resize_interactions, handle_window_buttons,
    handle_window_focus_click, handle_window_interactions, handles_routed, title_bars_routed,
    ButtonEventsView, HandleRouting, InteractionChange, TitleBarRouting,
};
use crate::snap::SnapResult;
use crate::transitions::{
    collapsed_all, handle_window_collapse, handle_window_maximize, handle_window_minimize,
    maximized_all, minimized_all, minimized_all_counter,
};
use crate::zorder::{
    focused_all, focused_all_counter, handle_window_focus, update_window_z_order, z_order_synced,
};

verus! {

/// The steps of a frame.
#[derive(Clone, Copy, Debug, PartialEq, Eq, Structural)]
pub enum FrameStage {
    FocusClicks,
    ResizeInteractions,
    TitleBarInteractions,
    Resize,
    Drag,
    HandlePositions,
    Focus,
    Buttons,
    Collapse,
    Maximize,
    Minimize,
    ZOrder,
    Close,
    ContentFlush,
    MinimumSizes,
}

/// The order in which a frame takes its steps.
pub open spec fn frame_order() -> Seq<FrameStage> {
    seq![
        FrameStage::FocusClicks,
        FrameStage::ResizeInteractions,
        FrameStage::TitleBarInteractions,
        FrameStage::Resize,
        FrameStage::Drag,
        FrameStage::HandlePositions,
        FrameStage::Focus,
        FrameStage::Buttons,
        FrameStage::Collapse,
        FrameStage::Maximize,
        FrameStage::Minimize,
        FrameStage::ZOrder,
        FrameStage::Close,
        FrameStage::ContentFlush,
        FrameStage::MinimumSizes,
    ]
}

/// What the host supplies for one frame.
pub struct FrameInput {
    /// The entities whose pointer interaction changed.
    pub changes: Vec<InteractionChange>,
    /// The primary button went down in this frame.
    pub just_pressed: bool,
    /// The primary button is down.
    pub pressed: bool,
    /// The size of the screen, if there is one.
    pub screen: Option<Vec2>,
    /// The position of the cursor, if it is on the screen.
    pub cursor: Option<Vec2>,
}

impl FrameInput {
    /// The pointer sample of the frame: there is one if there is both a
    /// screen and a cursor on it.
    pub open spec fn pointer(&self) -> Option<Pointer> {
        match (self.screen, self.cursor) {
            (Some(screen), Some(cursor)) => Some(Pointer { cursor, screen }),
            _ => None,
        }
    }

    /// Computes [`FrameInput::pointer`].
    pub fn pointer_sample(&self) -> (p: Option<Pointer>)
        ensures
            p == self.pointer(),
    {
        match (self.screen, self.cursor) {
            (Some(screen), Some(cursor)) => Some(Pointer { cursor, screen }),
            _ => None,
        }
    }
}

/// The cursor positions that the two gesture controllers remember from
/// one frame to the next.
#[derive(Clone, Copy, Debug, PartialEq, Eq, Structural)]
pub struct GestureCursors {
    pub drag: Option<Vec2>,
    pub resize: Option<Vec2>,
}

/// What a frame hands back to the host besides the new state.
pub struct FrameOutput {
    /// The solver's answer if a window was resized.
    pub resize_snap: Option<SnapResult>,
    /// The solver's answer if a window was dragged.
    pub drag_snap: Option<SnapResult>,
    /// Content that the host is to build.
    pub placements: Vec<ContentPlacement>,
}

/// The state of the window manager between frames.
pub struct FrameState {
    pub entities: Seq<UiEntity>,
    pub manager: WindowManager,
    pub cursors: GestureCursors,
}

/// The focus events of a frame: presses on windows, then on resize
/// handles, then on title bars.
pub open spec fn frame_focus_events(st: FrameState, input: FrameInput) -> Seq<WindowFocusEvent> {
    focus_clicks(st.entities, input.changes@, input.just_pressed, input.changes@.len() as int)
        + frame_handles(st, input).focus_events + frame_title_bars(st, input).focus_events
}

/// Routing of the presses on resize handles at the start of a frame.
pub open spec fn frame_handles(st: FrameState, input: FrameInput) -> HandleRouting {
    handles_routed(
        HandleRouting {
            entities: st.entities,
            resizing: st.manager.is_resizing_window,
            focus_events: Seq::empty(),
            resize_events: Seq::empty(),
        },
        input.changes@,
        input.just_pressed,
        input.pointer(),
        0,
    )
}

/// Routing of the presses on title bars, after that of the handles.
pub open spec fn frame_title_bars(st: FrameState, input: FrameInput) -> TitleBarRouting {
    title_bars_routed(
        TitleBarRouting {
            entities: frame_handles(st, input).entities,
            focus_events: Seq::empty(),
            drag_events: Seq::empty(),
        },
        input.changes@,
        input.just_pressed,
        frame_handles(st, input).resizing,
        0,
    )
}

/// The state that the resize controller starts from.
pub open spec fn frame_before_resize(st: FrameState, input: FrameInput) -> GestureState {
    GestureState {
        entities: frame_title_bars(st, input).entities,
        manager: WindowManager {
            is_resizing_window: frame_handles(st, input).resizing,
            ..st.manager
        },
        last_cursor: st.cursors.resize,
    }
}

/// The state after the resize controller.
pub open spec fn frame_after_resize(st: FrameState, input: FrameInput) -> GestureState {
    resize_frame(
        frame_before_resize(st, input),
        frame_handles(st, input).resize_events,
        input.pressed,
        input.pointer(),
    )
}

/// The state that the drag controller starts from.
pub open spec fn frame_before_drag(st: FrameState, input: FrameInput) -> GestureState {
    GestureState { last_cursor: st.cursors.drag, ..frame_after_resize(st, input) }
}

/// The state after the drag controller.
pub open spec fn frame_after_drag(st: FrameState, input: FrameInput) -> GestureState {
    drag_frame(
        frame_before_drag(st, input),
        frame_title_bars(st, input).drag_events,
        input.pressed,
        input.pointer(),
    )
}

/// The arena after the focus step.
pub open spec fn frame_after_focus(st: FrameState, input: FrameInput) -> Seq<UiEntity> {
    focused_all(
        handles_synced(frame_after_drag(st, input).entities),
        frame_focus_events(st, input),
        st.manager.next_z_index,
        0,
    )
}

/// The z-order counter after the focus step.
pub open spec fn frame_counter_after_focus(st: FrameState, input: FrameInput) -> i32 {
    focused_all_counter(
        handles_synced(frame_after_drag(st, input).entities),
        frame_focus_events(st, input),
        st.manager.next_z_index,
        0,
    )
}

/// The lifecycle events of a frame.
pub open spec fn frame_buttons(st: FrameState, input: FrameInput) -> ButtonEventsView {
    buttons_routed(frame_after_focus(st, input), input.changes@, input.changes@.len() as int)
}

/// The arena after the collapse and the maximize step.
pub open spec fn frame_after_maximize(st: FrameState, input: FrameInput) -> Seq<UiEntity> {
    let collapsed = collapsed_all(
        frame_after_focus(st, input),
        frame_buttons(st, input).collapse,
        0,
    );
    match input.screen {
        Some(screen) => maximized_all(collapsed, frame_buttons(st, input).maximize, screen, 0),
        None => collapsed,
    }
}

/// The arena after the minimize step.
pub open spec fn frame_after_minimize(st: FrameState, input: FrameInput) -> Seq<UiEntity> {
    match input.screen {
        Some(screen) => minimized_all(
            frame_after_maximize(st, input),
            frame_buttons(st, input).minimize,
            screen,
            frame_counter_after_focus(st, input),
            0,
        ),
        None => frame_after_maximize(st, input),
    }
}

/// The z-order counter at the end of a frame.
pub open spec fn frame_counter(st: FrameState, input: FrameInput) -> i32 {
    match input.screen {
        Some(screen) => minimized_all_counter(
            frame_after_maximize(st, input),
            frame_buttons(st, input).minimize,
            screen,
            frame_counter_after_focus(st, input),
            0,
        ),
        None => frame_counter_after_focus(st, input),
    }
}

/// The arena after the close step.
pub open spec fn frame_after_close(st: FrameState, input: FrameInput) -> Seq<UiEntity> {
    closed_all(z_order_synced(frame_after_minimize(st, input)), frame_buttons(st, input).close, 0)
}

/// The window that a gesture moves at the end of a frame.
pub open spec fn frame_active(st: FrameState, input: FrameInput) -> Option<usize> {
    active_after_closes(
        z_order_synced(frame_after_minimize(st, input)),
        frame_buttons(st, input).close,
        frame_after_drag(st, input).manager.dragging_window_entity,
        0,
    )
}

/// The arena at the end of a frame.
pub open spec fn frame_entities(st: FrameState, input: FrameInput) -> Seq<UiEntity> {
    enforced_from(
        content_flushed(frame_after_close(st, input), st.manager.pending_content_updates@, 0),
        0,
    )
}

/// What the host is to build at the end of a frame.
pub open spec fn frame_placements(st: FrameState, input: FrameInput) -> Seq<ContentPlacement> {
    content_placements(frame_after_close(st, input), st.manager.pending_content_updates@, 0)
}

/// A gesture that was under way after the drag step ended with the
/// close of its window.
pub open spec fn frame_gesture_closed(st: FrameState, input: FrameInput) -> bool {
    gesture_ended(
        frame_after_drag(st, input).manager.dragging_window_entity,
        frame_active(st, input),
    )
}

fn append_focus_events(into: &mut Vec<WindowFocusEvent>, from: &Vec<WindowFocusEvent>)
    ensures
        final(into)@ == old(into)@ + from@,
{
    let mut i: usize = 0;
    while i < from.len()
        invariant
            i <= from.len(),
            into@ == old(into)@ + from@.subrange(0, i as int),
        decreases from.len() - i,
    {
        into.push(from[i]);
        i = i + 1;
    }
}

/// The plugin that runs the window manager.
pub struct WindowPlugin;

impl WindowPlugin {
    /// The steps of a frame, in their order.
    pub fn build(&self) -> (stages: Vec<FrameStage>)
        ensures
            stages@ == frame_order(),
    {
        let mut stages: Vec<FrameStage> = Vec::new();
        stages.push(FrameStage::FocusClicks);
        stages.push(FrameStage::ResizeInteractions);
        stages.push(FrameStage::TitleBarInteractions);
        stages.push(FrameStage::Resize);
        stages.push(FrameStage::Drag);
        stages.push(FrameStage::HandlePositions);
        stages.push(FrameStage::Focus);
        stages.push(FrameStage::Buttons);
        stages.push(FrameStage::Collapse);
        stages.push(FrameStage::Maximize);
        stages.push(FrameStage::Minimize);
        stages.push(FrameStage::ZOrder);
        stages.push(FrameStage::Close);
        stages.push(FrameStage::ContentFlush);
        stages.push(FrameStage::MinimumSizes);
        stages
    }

    /// Runs one frame: every step of [`frame_order`], each on what the
    /// step before left.
    pub fn run_frame(
        &self,
        registry: &mut WindowRegistry,
        window_manager: &mut WindowManager,
        cursors: &mut GestureCursors,
        input: &FrameInput,
    ) -> (out: FrameOutput)
        requires
            old(registry).wf(),
        ensures
            final(registry).wf(),
            final(registry).entities@ == frame_entities(
                FrameState {
                    entities: old(registry).entities@,
                    manager: *old(window_manager),
                    cursors: *old(cursors),
                },
                *input,
            ),
            out.placements@ == frame_placements(
                FrameState {
                    entities: old(registry).entities@,
                    manager: *old(window_manager),
                    cursors: *old(cursors),
                },
                *input,
            ),
            final(cursors).resize == frame_after_resize(
                FrameState {
                    entities: old(registry).entities@,
                    manager: *old(window_manager),
                    cursors: *old(cursors),
                },
                *input,
            ).last_cursor,
            final(cursors).drag == frame_after_drag(
                FrameState {
                    entities: old(registry).entities@,
                    manager: *old(window_manager),
                    cursors: *old(cursors),
                },
                *input,
            ).last_cursor,
            final(window_manager).next_z_index == frame_counter(
                FrameState {
                    entities: old(registry).entities@,
                    manager: *old(window_manager),
                    cursors: *old(cursors),
                },
                *input,
            ),
            final(window_manager).snap_threshold == old(window_manager).snap_threshold,
            final(window_manager).dragging_window_entity == frame_active(
                FrameState {
                    entities: old(registry).entities@,
                    manager: *old(window_manager),
                    cursors: *old(cursors),
                },
                *input,
            ),
            final(window_manager).is_dragging_window == (frame_after_drag(
                FrameState {
                    entities: old(registry).entities@,
                    manager: *old(window_manager),
                    cursors: *old(cursors),
                },
                *input,
            ).manager.is_dragging_window && !frame_gesture_closed(
                FrameState {
                    entities: old(registry).entities@,
                    manager: *old(window_manager),
                    cursors: *old(cursors),
                },
                *input,
            )),
            final(window_manager).is_resizing_window == (frame_after_drag(
                FrameState {
                    entities: old(registry).entities@,
                    manager: *old(window_manager),
                    cursors: *old(cursors),
                },
                *input,
            ).manager.is_resizing_window && !frame_gesture_closed(
                FrameState {
                    entities: old(registry).entities@,
                    manager: *old(window_manager),
                    cursors: *old(cursors),
                },
                *input,
            )),
            final(window_manager).pending_content_updates@ == Seq::<ContentUpdate>::empty(),
            out.resize_snap is Some == resize_stepped(
                resize_begun_all(
                    frame_before_resize(
                        FrameState {
                            entities: old(registry).entities@,
                            manager: *old(window_manager),
                            cursors: *old(cursors),
                        },
                        *input,
                    ),
                    frame_handles(
                        FrameState {
                            entities: old(registry).entities@,
                            manager: *old(window_manager),
                            cursors: *old(cursors),
                        },
                        *input,
                    ).resize_events,
                    input.pointer(),
                    0,
                ),
                input.pressed,
                input.pointer(),
            ),
            out.resize_snap matches Some(r) ==> r.plan() == resize_frame_plan(
                resize_begun_all(
                    frame_before_resize(
                        FrameState {
                            entities: old(registry).entities@,
                            manager: *old(window_manager),
                            cursors: *old(cursors),
                        },
                        *input,
                    ),
                    frame_handles(
                        FrameState {
                            entities: old(registry).entities@,
                            manager: *old(window_manager),
                            cursors: *old(cursors),
                        },
                        *input,
                    ).resize_events,
                    input.pointer(),
                    0,
                ),
                input.pointer().unwrap(),
            ),
            out.drag_snap is Some == drag_frame_snapped(
                frame_before_drag(
                    FrameState {
                        entities: old(registry).entities@,
                        manager: *old(window_manager),
                        cursors: *old(cursors),
                    },
                    *input,
                ),
                frame_title_bars(
                    FrameState {
                        entities: old(registry).entities@,
                        manager: *old(window_manager),
                        cursors: *old(cursors),
                    },
                    *input,
                ).drag_events,
                input.pressed,
                input.pointer(),
            ),
            out.drag_snap matches Some(r) ==> r.plan() == drag_plan(
                drag_begun_all(
                    frame_before_drag(
                        FrameState {
                            entities: old(registry).entities@,
                            manager: *old(window_manager),
                            cursors: *old(cursors),
                        },
                        *input,
                    ),
                    frame_title_bars(
                        FrameState {
                            entities: old(registry).entities@,
                            manager: *old(window_manager),
                            cursors: *old(cursors),
                        },
                        *input,
                    ).drag_events,
                    input.pointer(),
                    0,
                ),
                input.pointer().unwrap(),
            ),
    {
        let ghost st = FrameState {
            entities: registry.entities@,
            manager: *window_manager,
            cursors: *cursors,
        };
        let pointer = input.pointer_sample();
        let mut focus_events = handle_window_focus_click(
            registry,
            &input.changes,
            input.just_pressed,
        );
        let handle_events = handle_resize_interactions(
            registry,
            window_manager,
            &input.changes,
            input.just_pressed,
            pointer,
        );
        let bar_events = handle_window_interactions(
            registry,
            window_manager,
            &input.changes,
            input.just_pressed,
        );
        append_focus_events(&mut focus_events, &handle_events.0);
        append_focus_events(&mut focus_events, &bar_events.0);

        let mut resize_cursor = cursors.resize;
        let resize_snap = handle_window_resize(
            &handle_events.1,
            registry,
            input.pressed,
            pointer,
            &mut resize_cursor,
            window_manager,
        );
        cursors.resize = resize_cursor;
        let mut drag_cursor = cursors.drag;
        let drag_snap = handle_window_drag(
            &bar_events.1,
            registry,
            input.pressed,
            pointer,
            &mut drag_cursor,
            window_manager,
        );
        cursors.drag = drag_cursor;
        proof {
            lemma_resize_frame_keeps_counters(
                frame_before_resize(st, *input),
                frame_handles(st, *input).resize_events,
                input.pressed,
                input.pointer(),
            );
            lemma_drag_frame_keeps_counters(
                frame_before_drag(st, *input),
                frame_title_bars(st, *input).drag_events,
                input.pressed,
                input.pointer(),
            );
        }

        update_resize_handle_positions(registry);
        handle_window_focus(registry, window_manager, &focus_events);
        let buttons = handle_window_buttons(registry, &input.changes);
        handle_window_collapse(registry, &buttons.collapse);
        handle_window_maximize(registry, &buttons.maximize, input.screen);
        handle_window_minimize(registry, window_manager, &buttons.minimize, input.screen);
        update_window_z_order(registry);
        handle_window_close(registry, window_manager, &buttons.close);
        let placements = process_pending_content_updates(registry, window_manager);
        enforce_window_minimum_sizes(registry);
        FrameOutput { resize_snap, drag_snap, placements }
    }
}

} // verus!
