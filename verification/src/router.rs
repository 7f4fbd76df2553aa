//! The interaction router: turns the pointer interactions of a frame
//! into domain events. It marks the window that a gesture takes hold of,
//! but never moves or resizes anything itself.

use vstd::prelude::*;
use crate::events::{
    WindowCloseEvent, WindowCollapseEvent, WindowDragEvent, WindowFocusEvent, WindowMaximizeEvent,
    WindowMinimizeEvent, WindowResizeEvent,
};
use crate::geometry::Vec2;
use crate::gesture::Pointer;
use crate::handle::ResizeHandle;
use crate::manager::WindowManager;
use crate::registry::{is_window, window_of, Role, UiEntity, WindowRegistry};

use crate::window::Window;

verus! {

/// How the pointer relates to an entity.
#[derive(Clone, Copy, Debug, PartialEq, Eq, Structural)]
pub enum Interaction {
    /// The primary button is down over the entity.
    Pressed,
    /// The pointer is over the entity.
    Hovered,
    /// The pointer is elsewhere.
    Idle,
}

/// An entity whose interaction changed in this frame.
#[derive(Clone, Copy, Debug, PartialEq, Eq, Structural)]
pub struct InteractionChange {
    pub entity: usize,
    pub previous: Interaction,
    pub current: Interaction,
}

impl InteractionChange {
    /// The primary button went down over the entity.
    pub open spec fn is_press(self, just_pressed: bool) -> bool {
        self.current == Interaction::Pressed && just_pressed
    }

    /// The primary button came up while the pointer was still over the
    /// entity.
    pub open spec fn is_release(self) -> bool {
        self.previous == Interaction::Pressed && self.current == Interaction::Hovered
    }

    fn pressed_now(&self, just_pressed: bool) -> (r: bool)
        ensures
            r == self.is_press(just_pressed),
    {
        just_pressed && matches!(self.current, Interaction::Pressed)
    }

    fn released_now(&self) -> (r: bool)
        ensures
            r == self.is_release(),
    {
        matches!(self.previous, Interaction::Pressed) && matches!(
            self.current,
            Interaction::Hovered
        )
    }
}

/// `e` names a live entity.
pub open spec fn is_live(s: Seq<UiEntity>, e: int) -> bool {
    0 <= e < s.len() && s[e].alive
}

/// The focus events for presses on windows themselves, for the changes
/// before the `n`-th.
pub open spec fn focus_clicks(
    s: Seq<UiEntity>,
    changes: Seq<InteractionChange>,
    just_pressed: bool,
    n: int,
) -> Seq<WindowFocusEvent>
    decreases n,
{
    if n <= 0 || n > changes.len() {
        Seq::empty()
    } else {
        let c = changes[n - 1];
        let before = focus_clicks(s, changes, just_pressed, n - 1);
        if is_window(s, c.entity as int) && c.is_press(just_pressed) {
            before.push(WindowFocusEvent { window_entity: c.entity })
        } else {
            before
        }
    }
}

/// Emits a focus event for every window on which the primary button
/// went down.
pub fn handle_window_focus_click(
    registry: &WindowRegistry,
    changes: &Vec<InteractionChange>,
    just_pressed: bool,
) -> (focus_events: Vec<WindowFocusEvent>)
    ensures
        focus_events@ == focus_clicks(
            registry.entities@,
            changes@,
            just_pressed,
            changes.len() as int,
        ),
{
    let mut focus_events: Vec<WindowFocusEvent> = Vec::new();
    let mut i: usize = 0;
    while i < changes.len()
        invariant
            i <= changes.len(),
            focus_events@ == focus_clicks(registry.entities@, changes@, just_pressed, i as int),
        decreases changes.len() - i,
    {
        let c = changes[i];
        if registry.contains_window(c.entity) && c.pressed_now(just_pressed) {
            focus_events.push(WindowFocusEvent { window_entity: c.entity });
        }
        i = i + 1;
    }
    focus_events
}

/// The window whose title bar a change presses, if it presses one and
/// no resize is in progress.
pub open spec fn pressed_title_bar(
    s: Seq<UiEntity>,
    c: InteractionChange,
    just_pressed: bool,
    resizing: bool,
) -> Option<usize> {
    if is_live(s, c.entity as int) && s[c.entity as int].role is TitleBar && c.is_press(
        just_pressed,
    ) && !resizing {
        Some(s[c.entity as int].role->TitleBar_0.window_entity)
    } else {
        None
    }
}

/// The drag event that a press on a title bar emits.
pub open spec fn drag_start_event(window_entity: usize) -> WindowDragEvent {
    WindowDragEvent {
        window_entity,
        position: Vec2 { x: 0, y: 0 },
        drag_offset: Vec2 { x: 0, y: 0 },
        drag_handle: None,
    }
}

/// The arena with window `id` held by `handle`, if `id` is a live window.
pub open spec fn held_by(s: Seq<UiEntity>, id: int, handle: ResizeHandle) -> Seq<UiEntity> {
    if is_window(s, id) {
        s.update(
            id,
            UiEntity {
                role: Role::Window(Window { drag_handle: Some(handle), ..window_of(s, id) }),
                ..s[id]
            },
        )
    } else {
        s
    }
}

/// What routing title-bar interactions leads to.
pub struct TitleBarRouting {
    pub entities: Seq<UiEntity>,
    pub focus_events: Seq<WindowFocusEvent>,
    pub drag_events: Seq<WindowDragEvent>,
}

/// Routing of the title-bar interactions from the `i`-th change on: each
/// press emits a focus and a drag-start event for the title bar's window
/// and marks that window as dragged.
pub open spec fn title_bars_routed(
    r: TitleBarRouting,
    changes: Seq<InteractionChange>,
    just_pressed: bool,
    resizing: bool,
    i: int,
) -> TitleBarRouting
    decreases changes.len() - i,
{
    if i < 0 || i >= changes.len() {
        r
    } else {
        match pressed_title_bar(r.entities, changes[i], just_pressed, resizing) {
            Some(w) => title_bars_routed(
                TitleBarRouting {
                    entities: held_by(r.entities, w as int, ResizeHandle::DragSentinel),
                    focus_events: r.focus_events.push(WindowFocusEvent { window_entity: w }),
                    drag_events: r.drag_events.push(drag_start_event(w)),
                },
                changes,
                just_pressed,
                resizing,
                i + 1,
            ),
            None => title_bars_routed(r, changes, just_pressed, resizing, i + 1),
        }
    }
}

fn hold_window(registry: &mut WindowRegistry, window_entity: usize, handle: ResizeHandle)
    requires
        old(registry).wf(),
    ensures
        final(registry).entities@ == held_by(old(registry).entities@, window_entity as int, handle),
        final(registry).wf(),
{
    if registry.contains_window(window_entity) {
        match &mut registry.entities[window_entity].role {
            Role::Window(w) => {
                w.drag_handle = Some(handle);
            },
            _ => {},
        }
    }
}

/// Routes presses on title bars: unless a resize is in progress, each
/// emits a focus event and a drag-start event and marks its window as
/// dragged.
pub fn handle_window_interactions(
    registry: &mut WindowRegistry,
    window_manager: &WindowManager,
    changes: &Vec<InteractionChange>,
    just_pressed: bool,
) -> (events: (Vec<WindowFocusEvent>, Vec<WindowDragEvent>))
    requires
        old(registry).wf(),
    ensures
        (TitleBarRouting {
            entities: final(registry).entities@,
            focus_events: events.0@,
            drag_events: events.1@,
        }) == title_bars_routed(
            TitleBarRouting {
                entities: old(registry).entities@,
                focus_events: Seq::empty(),
                drag_events: Seq::empty(),
            },
            changes@,
            just_pressed,
            window_manager.is_resizing_window,
            0,
        ),
        final(registry).wf(),
{
    let mut focus_events: Vec<WindowFocusEvent> = Vec::new();
    let mut drag_events: Vec<WindowDragEvent> = Vec::new();
    let resizing = window_manager.is_resizing_window;
    let mut i: usize = 0;
    while i < changes.len()
        invariant
            i <= changes.len(),
            registry.wf(),
            title_bars_routed(
                TitleBarRouting {
                    entities: registry.entities@,
                    focus_events: focus_events@,
                    drag_events: drag_events@,
                },
                changes@,
                just_pressed,
                resizing,
                i as int,
            ) == title_bars_routed(
                TitleBarRouting {
                    entities: old(registry).entities@,
                    focus_events: Seq::empty(),
                    drag_events: Seq::empty(),
                },
                changes@,
                just_pressed,
                resizing,
                0,
            ),
        decreases changes.len() - i,
    {
        let c = changes[i];
        let mut target: Option<usize> = None;
        if c.entity < registry.entities.len() && registry.entities[c.entity].alive {
            match &registry.entities[c.entity].role {
                Role::TitleBar(bar) => {
                    if c.pressed_now(just_pressed) && !resizing {
                        target = Some(bar.window_entity);
                    }
                },
                _ => {},
            }
        }
        if let Some(window_entity) = target {
            focus_events.push(WindowFocusEvent { window_entity });
            hold_window(registry, window_entity, ResizeHandle::DragSentinel);
            drag_events.push(
                WindowDragEvent {
                    window_entity,
                    position: Vec2 { x: 0, y: 0 },
                    drag_offset: Vec2 { x: 0, y: 0 },
                    drag_handle: None,
                },
            );
        }
        i = i + 1;
    }
    (focus_events, drag_events)
}

/// A change presses a live resize handle.
pub open spec fn presses_handle(
    s: Seq<UiEntity>,
    c: InteractionChange,
    just_pressed: bool,
) -> bool {
    is_live(s, c.entity as int) && s[c.entity as int].role is ResizeHandle && c.is_press(
        just_pressed,
    )
}

/// What routing resize-handle interactions leads to.
pub struct HandleRouting {
    pub entities: Seq<UiEntity>,
    pub resizing: bool,
    pub focus_events: Seq<WindowFocusEvent>,
    pub resize_events: Seq<WindowResizeEvent>,
}

/// Routing of one press on the resize handle `e`. A handle whose window
/// is not live changes nothing. Otherwise a resize is now in progress
/// and, with a pointer, the window is held by the handle and a focus and
/// a resize-start event are emitted.
pub open spec fn handle_pressed(
    r: HandleRouting,
    e: int,
    pointer: Option<Pointer>,
) -> HandleRouting {
    let s = r.entities;
    let handle = s[e].role->ResizeHandle_0.handle_type;
    let w = s[e].role->ResizeHandle_1.window_entity;
    if !is_window(s, w as int) {
        r
    } else if pointer is Some {
        HandleRouting {
            entities: held_by(s, w as int, handle),
            resizing: true,
            focus_events: r.focus_events.push(WindowFocusEvent { window_entity: w }),
            resize_events: r.resize_events.push(
                WindowResizeEvent {
                    window_entity: w,
                    position: pointer.unwrap().cursor,
                    size: window_of(s, w as int).size,
                    drag_handle: handle,
                },
            ),
        }
    } else {
        HandleRouting { resizing: true, ..r }
    }
}

/// Routing of the resize-handle interactions from the `i`-th change on.
pub open spec fn handles_routed(
    r: HandleRouting,
    changes: Seq<InteractionChange>,
    just_pressed: bool,
    pointer: Option<Pointer>,
    i: int,
) -> HandleRouting
    decreases changes.len() - i,
{
    if i < 0 || i >= changes.len() {
        r
    } else if presses_handle(r.entities, changes[i], just_pressed) {
        handles_routed(
            handle_pressed(r, changes[i].entity as int, pointer),
            changes,
            just_pressed,
            pointer,
            i + 1,
        )
    } else {
        handles_routed(r, changes, just_pressed, pointer, i + 1)
    }
}

/// Routes presses on resize handles: each starts a resize of the
/// handle's window.
pub fn handle_resize_interactions(
    registry: &mut WindowRegistry,
    window_manager: &mut WindowManager,
    changes: &Vec<InteractionChange>,
    just_pressed: bool,
    pointer: Option<Pointer>,
) -> (events: (Vec<WindowFocusEvent>, Vec<WindowResizeEvent>))
    requires
        old(registry).wf(),
    ensures
        (HandleRouting {
            entities: final(registry).entities@,
            resizing: final(window_manager).is_resizing_window,
            focus_events: events.0@,
            resize_events: events.1@,
        }) == handles_routed(
            HandleRouting {
                entities: old(registry).entities@,
                resizing: old(window_manager).is_resizing_window,
                focus_events: Seq::empty(),
                resize_events: Seq::empty(),
            },
            changes@,
            just_pressed,
            pointer,
            0,
        ),
        final(registry).wf(),
        *final(window_manager) == (WindowManager {
            is_resizing_window: final(window_manager).is_resizing_window,
            ..*old(window_manager)
        }),
{
    let mut focus_events: Vec<WindowFocusEvent> = Vec::new();
    let mut resize_events: Vec<WindowResizeEvent> = Vec::new();
    let mut i: usize = 0;
    while i < changes.len()
        invariant
            i <= changes.len(),
            registry.wf(),
            *window_manager == (WindowManager {
                is_resizing_window: window_manager.is_resizing_window,
                ..*old(window_manager)
            }),
            handles_routed(
                HandleRouting {
                    entities: registry.entities@,
                    resizing: window_manager.is_resizing_window,
                    focus_events: focus_events@,
                    resize_events: resize_events@,
                },
                changes@,
                just_pressed,
                pointer,
                i as int,
            ) == handles_routed(
                HandleRouting {
                    entities: old(registry).entities@,
                    resizing: old(window_manager).is_resizing_window,
                    focus_events: Seq::empty(),
                    resize_events: Seq::empty(),
                },
                changes@,
                just_pressed,
                pointer,
                0,
            ),
        decreases changes.len() - i,
    {
        let c = changes[i];
        let mut grip: Option<(ResizeHandle, usize)> = None;
        if c.entity < registry.entities.len() && registry.entities[c.entity].alive {
            match &registry.entities[c.entity].role {
                Role::ResizeHandle(handle, owner) => {
                    if c.pressed_now(just_pressed) {
                        grip = Some((handle.handle_type, owner.window_entity));
                    }
                },
                _ => {},
            }
        }
        if let Some((handle_type, window_entity)) = grip {
            let size = match registry.window(window_entity) {
                Some(w) => Some(w.size),
                None => None,
            };
            if let Some(size) = size {
                window_manager.is_resizing_window = true;
                if let Some(p) = pointer {
                    hold_window(registry, window_entity, handle_type);
                    focus_events.push(WindowFocusEvent { window_entity });
                    resize_events.push(
                        WindowResizeEvent {
                            window_entity,
                            position: p.cursor,
                            size,
                            drag_handle: handle_type,
                        },
                    );
                }
            }
        }
        i = i + 1;
    }
    (focus_events, resize_events)
}

/// The lifecycle events of one frame, each kind in the order of the
/// interactions that caused them.
pub struct ButtonEvents {
    pub close: Vec<WindowCloseEvent>,
    pub minimize: Vec<WindowMinimizeEvent>,
    pub maximize: Vec<WindowMaximizeEvent>,
    pub collapse: Vec<WindowCollapseEvent>,
}

/// The mathematical content of [`ButtonEvents`].
pub struct ButtonEventsView {
    pub close: Seq<WindowCloseEvent>,
    pub minimize: Seq<WindowMinimizeEvent>,
    pub maximize: Seq<WindowMaximizeEvent>,
    pub collapse: Seq<WindowCollapseEvent>,
}

impl View for ButtonEvents {
    type V = ButtonEventsView;

    open spec fn view(&self) -> ButtonEventsView {
        ButtonEventsView {
            close: self.close@,
            minimize: self.minimize@,
            maximize: self.maximize@,
            collapse: self.collapse@,
        }
    }
}

/// The events so far with the one that a release over entity `e` adds,
/// if `e` is a live window button.
pub open spec fn button_released(
    s: Seq<UiEntity>,
    v: ButtonEventsView,
    e: int,
) -> ButtonEventsView {
    if !is_live(s, e) {
        v
    } else {
        match s[e].role {
            Role::CloseButton(b) => ButtonEventsView {
                close: v.close.push(WindowCloseEvent { window_entity: b.window_entity }),
                ..v
            },
            Role::MinimizeButton(b) => ButtonEventsView {
                minimize: v.minimize.push(WindowMinimizeEvent { window_entity: b.window_entity }),
                ..v
            },
            Role::MaximizeButton(b) => ButtonEventsView {
                maximize: v.maximize.push(WindowMaximizeEvent { window_entity: b.window_entity }),
                ..v
            },
            Role::CollapseButton(b) => ButtonEventsView {
                collapse: v.collapse.push(WindowCollapseEvent { window_entity: b.window_entity }),
                ..v
            },
            _ => v,
        }
    }
}

/// The lifecycle events for the changes before the `n`-th.
pub open spec fn buttons_routed(
    s: Seq<UiEntity>,
    changes: Seq<InteractionChange>,
    n: int,
) -> ButtonEventsView
    decreases n,
{
    if n <= 0 || n > changes.len() {
        ButtonEventsView {
            close: Seq::empty(),
            minimize: Seq::empty(),
            maximize: Seq::empty(),
            collapse: Seq::empty(),
        }
    } else if changes[n - 1].is_release() {
        button_released(s, buttons_routed(s, changes, n - 1), changes[n - 1].entity as int)
    } else {
        buttons_routed(s, changes, n - 1)
    }
}

/// Routes releases over the four title-bar buttons to their lifecycle
/// events.
pub fn handle_window_buttons(
    registry: &WindowRegistry,
    changes: &Vec<InteractionChange>,
) -> (events: ButtonEvents)
    ensures
        events@ == buttons_routed(registry.entities@, changes@, changes.len() as int),
{
    let mut events = ButtonEvents {
        close: Vec::new(),
        minimize: Vec::new(),
        maximize: Vec::new(),
        collapse: Vec::new(),
    };
    let mut i: usize = 0;
    while i < changes.len()
        invariant
            i <= changes.len(),
            events@ == buttons_routed(registry.entities@, changes@, i as int),
        decreases changes.len() - i,
    {
        let c = changes[i];
        if c.released_now() && c.entity < registry.entities.len()
            && registry.entities[c.entity].alive {
            match &registry.entities[c.entity].role {
                Role::CloseButton(b) => {
                    events.close.push(WindowCloseEvent { window_entity: b.window_entity });
                },
                Role::MinimizeButton(b) => {
                    events.minimize.push(WindowMinimizeEvent { window_entity: b.window_entity });
                },
                Role::MaximizeButton(b) => {
                    events.maximize.push(WindowMaximizeEvent { window_entity: b.window_entity });
                },
                Role::CollapseButton(b) => {
                    events.collapse.push(WindowCollapseEvent { window_entity: b.window_entity });
                },
                _ => {},
            }
        }
        i = i + 1;
    }
    events
}

} // verus!
