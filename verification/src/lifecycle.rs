//! The end of a window, and the deferred replacement of its content.

use vstd::prelude::*;
use crate::events::WindowCloseEvent;
use crate::manager::{ContentUpdate, WindowManager};
use crate::registry::{is_under, is_window, Role, UiEntity, WindowRegistry};

verus! {

/// The arena after everything at or below `root` was despawned.
pub open spec fn despawned(s: Seq<UiEntity>, root: int) -> Seq<UiEntity> {
    Seq::new(
        s.len(),
        |e: int|
            if is_under(s, root, e) {
                UiEntity { alive: false, ..s[e] }
            } else {
                s[e]
            },
    )
}

/// The arena after everything below `root`, but not `root` itself, was
/// despawned.
pub open spec fn children_despawned(s: Seq<UiEntity>, root: int) -> Seq<UiEntity> {
    Seq::new(
        s.len(),
        |e: int|
            if e != root && is_under(s, root, e) {
                UiEntity { alive: false, ..s[e] }
            } else {
                s[e]
            },
    )
}

/// The arena after a close request for `id`: a live window goes, with
/// its chrome and its content.
pub open spec fn closed(s: Seq<UiEntity>, id: int) -> Seq<UiEntity> {
    if is_window(s, id) {
        despawned(s, id)
    } else {
        s
    }
}

/// A close request for `id` ends the gesture that moves `active`.
pub open spec fn gesture_ends(s: Seq<UiEntity>, id: int, active: Option<usize>) -> bool {
    is_window(s, id) && active == Some(id as usize)
}

/// The window that a gesture moves, after a close request for `id`: a
/// gesture on the closed window ends with it.
pub open spec fn active_after_close(s: Seq<UiEntity>, id: int, active: Option<usize>) -> Option<
    usize,
> {
    if gesture_ends(s, id, active) {
        None
    } else {
        active
    }
}

fn despawn_below(registry: &mut WindowRegistry, root: usize, with_root: bool)
    requires
        old(registry).wf(),
    ensures
        final(registry).entities@ == if with_root {
            despawned(old(registry).entities@, root as int)
        } else {
            children_despawned(old(registry).entities@, root as int)
        },
        final(registry).wf(),
{
    let flags = registry.subtree(root);
    let ghost s0 = registry.entities@;
    let ghost goal = if with_root {
        despawned(s0, root as int)
    } else {
        children_despawned(s0, root as int)
    };
    let mut e: usize = 0;
    while e < registry.entities.len()
        invariant
            e <= registry.entities.len(),
            registry.entities.len() == s0.len(),
            flags.len() == s0.len(),
            goal == if with_root {
                despawned(s0, root as int)
            } else {
                children_despawned(s0, root as int)
            },
            forall|j: int| 0 <= j < flags.len() ==> flags[j] == is_under(s0, root as int, j),
            forall|j: int| 0 <= j < e ==> registry.entities@[j] == goal[j],
            forall|j: int| e <= j < s0.len() ==> registry.entities@[j] == s0[j],
        decreases registry.entities.len() - e,
    {
        if flags[e] && (with_root || e != root) {
            registry.entities[e].alive = false;
        }
        e = e + 1;
    }
    proof {
        assert(registry.entities@ =~= goal);
    }
}

/// Closes window `window_entity`: the window, its chrome and its content
/// are despawned, and a drag or resize that held it ends.
pub fn close_window(
    registry: &mut WindowRegistry,
    window_manager: &mut WindowManager,
    window_entity: usize,
)
    requires
        old(registry).wf(),
    ensures
        final(registry).entities@ == closed(old(registry).entities@, window_entity as int),
        final(registry).wf(),
        final(window_manager).dragging_window_entity == active_after_close(
            old(registry).entities@,
            window_entity as int,
            old(window_manager).dragging_window_entity,
        ),
        final(window_manager).is_dragging_window == (old(window_manager).is_dragging_window
            && !gesture_ends(
            old(registry).entities@,
            window_entity as int,
            old(window_manager).dragging_window_entity,
        )),
        final(window_manager).is_resizing_window == (old(window_manager).is_resizing_window
            && !gesture_ends(
            old(registry).entities@,
            window_entity as int,
            old(window_manager).dragging_window_entity,
        )),
        final(window_manager).next_z_index == old(window_manager).next_z_index,
        final(window_manager).snap_threshold == old(window_manager).snap_threshold,
        final(window_manager).pending_content_updates@ == old(
            window_manager,
        ).pending_content_updates@,
{
    if !registry.contains_window(window_entity) {
        return ;
    }
    despawn_below(registry, window_entity, true);
    let held = match window_manager.dragging_window_entity {
        Some(active) => active == window_entity,
        None => false,
    };
    if held {
        window_manager.dragging_window_entity = None;
        window_manager.is_dragging_window = false;
        window_manager.is_resizing_window = false;
    }
}

/// The arena after the close requests from the `i`-th on, in order.
pub open spec fn closed_all(
    s: Seq<UiEntity>,
    events: Seq<WindowCloseEvent>,
    i: int,
) -> Seq<UiEntity>
    decreases events.len() - i,
{
    if i < 0 || i >= events.len() {
        s
    } else {
        closed_all(closed(s, events[i].window_entity as int), events, i + 1)
    }
}

/// The window that a gesture moves, after the close requests from the
/// `i`-th on.
pub open spec fn active_after_closes(
    s: Seq<UiEntity>,
    events: Seq<WindowCloseEvent>,
    active: Option<usize>,
    i: int,
) -> Option<usize>
    decreases events.len() - i,
{
    if i < 0 || i >= events.len() {
        active
    } else {
        let id = events[i].window_entity as int;
        active_after_closes(closed(s, id), events, active_after_close(s, id, active), i + 1)
    }
}

/// A gesture was under way before and is not any more.
pub open spec fn gesture_ended(before: Option<usize>, after: Option<usize>) -> bool {
    before is Some && after is None
}

/// Carries out the close requests of one frame, in order.
pub fn handle_window_close(
    registry: &mut WindowRegistry,
    window_manager: &mut WindowManager,
    events: &Vec<WindowCloseEvent>,
)
    requires
        old(registry).wf(),
    ensures
        final(registry).entities@ == closed_all(old(registry).entities@, events@, 0),
        final(registry).wf(),
        final(window_manager).dragging_window_entity == active_after_closes(
            old(registry).entities@,
            events@,
            old(window_manager).dragging_window_entity,
            0,
        ),
        final(window_manager).is_dragging_window == (old(window_manager).is_dragging_window
            && !gesture_ended(
            old(window_manager).dragging_window_entity,
            final(window_manager).dragging_window_entity,
        )),
        final(window_manager).is_resizing_window == (old(window_manager).is_resizing_window
            && !gesture_ended(
            old(window_manager).dragging_window_entity,
            final(window_manager).dragging_window_entity,
        )),
        final(window_manager).next_z_index == old(window_manager).next_z_index,
        final(window_manager).snap_threshold == old(window_manager).snap_threshold,
        final(window_manager).pending_content_updates@ == old(
            window_manager,
        ).pending_content_updates@,
{
    let mut i: usize = 0;
    while i < events.len()
        invariant
            i <= events.len(),
            registry.wf(),
            closed_all(registry.entities@, events@, i as int) == closed_all(
                old(registry).entities@,
                events@,
                0,
            ),
            active_after_closes(
                registry.entities@,
                events@,
                window_manager.dragging_window_entity,
                i as int,
            ) == active_after_closes(
                old(registry).entities@,
                events@,
                old(window_manager).dragging_window_entity,
                0,
            ),
            window_manager.is_dragging_window == (old(window_manager).is_dragging_window
                && !gesture_ended(
                old(window_manager).dragging_window_entity,
                window_manager.dragging_window_entity,
            )),
            window_manager.is_resizing_window == (old(window_manager).is_resizing_window
                && !gesture_ended(
                old(window_manager).dragging_window_entity,
                window_manager.dragging_window_entity,
            )),
            window_manager.dragging_window_entity is Some ==> window_manager.dragging_window_entity
                == old(window_manager).dragging_window_entity,
            window_manager.next_z_index == old(window_manager).next_z_index,
            window_manager.snap_threshold == old(window_manager).snap_threshold,
            window_manager.pending_content_updates@ == old(
                window_manager,
            ).pending_content_updates@,
        decreases events.len() - i,
    {
        close_window(registry, window_manager, events[i].window_entity);
        i = i + 1;
    }
}

/// `e` is the live content area of window `window`.
pub open spec fn is_content_area_for(s: Seq<UiEntity>, window: usize, e: int) -> bool {
    &&& 0 <= e < s.len()
    &&& s[e].alive
    &&& s[e].role matches Role::ContentArea(_, area)
    &&& area.window_entity == window
}

/// The first live content area of `window` from `e` on, or the length of
/// the arena.
pub open spec fn content_area_from(s: Seq<UiEntity>, window: usize, e: int) -> int
    decreases s.len() - e,
{
    if e < 0 || e >= s.len() {
        s.len() as int
    } else if is_content_area_for(s, window, e) {
        e
    } else {
        content_area_from(s, window, e + 1)
    }
}

/// Content that the host is asked to build below a content area.
#[derive(Clone, Copy, Debug, PartialEq, Eq, Structural)]
pub struct ContentPlacement {
    pub content_area: usize,
    pub builder: u64,
}

/// The arena after one content replacement: the old content of the
/// window's content area is despawned. A window without a live content
/// area changes nothing.
pub open spec fn content_cleared(s: Seq<UiEntity>, update: ContentUpdate) -> Seq<UiEntity> {
    let area = content_area_from(s, update.window_entity, 0);
    if area < s.len() {
        children_despawned(s, area)
    } else {
        s
    }
}

/// The arena after the content replacements from the `i`-th on.
pub open spec fn content_flushed(s: Seq<UiEntity>, updates: Seq<ContentUpdate>, i: int) -> Seq<
    UiEntity,
>
    decreases updates.len() - i,
{
    if i < 0 || i >= updates.len() {
        s
    } else {
        content_flushed(content_cleared(s, updates[i]), updates, i + 1)
    }
}

/// What the host is asked to build for the content replacements from the
/// `i`-th on, in order: one placement for each update whose window has a
/// live content area.
pub open spec fn content_placements(s: Seq<UiEntity>, updates: Seq<ContentUpdate>, i: int) -> Seq<
    ContentPlacement,
>
    decreases updates.len() - i,
{
    if i < 0 || i >= updates.len() {
        Seq::empty()
    } else {
        let area = content_area_from(s, updates[i].window_entity, 0);
        let rest = content_placements(content_cleared(s, updates[i]), updates, i + 1);
        if area < s.len() {
            seq![ContentPlacement { content_area: area as usize, builder: updates[i].builder }]
                + rest
        } else {
            rest
        }
    }
}

fn find_content_area(registry: &WindowRegistry, window_entity: usize) -> (area: usize)
    ensures
        area == content_area_from(registry.entities@, window_entity, 0),
        area <= registry.entities.len(),
{
    let mut e: usize = 0;
    while e < registry.entities.len()
        invariant
            e <= registry.entities.len(),
            content_area_from(registry.entities@, window_entity, e as int) == content_area_from(
                registry.entities@,
                window_entity,
                0,
            ),
        decreases registry.entities.len() - e,
    {
        if registry.entities[e].alive {
            let hit = match &registry.entities[e].role {
                Role::ContentArea(_, area) => area.window_entity == window_entity,
                _ => false,
            };
            if hit {
                return e;
            }
        }
        e = e + 1;
    }
    e
}

/// The flush step: empties the queue of content replacements, despawns
/// the content they replace, and returns what the host is to build.
pub fn process_pending_content_updates(
    registry: &mut WindowRegistry,
    window_manager: &mut WindowManager,
) -> (placements: Vec<ContentPlacement>)
    requires
        old(registry).wf(),
    ensures
        final(registry).entities@ == content_flushed(
            old(registry).entities@,
            old(window_manager).pending_content_updates@,
            0,
        ),
        placements@ == content_placements(
            old(registry).entities@,
            old(window_manager).pending_content_updates@,
            0,
        ),
        final(registry).wf(),
        final(window_manager).pending_content_updates@ == Seq::<ContentUpdate>::empty(),
        final(window_manager).next_z_index == old(window_manager).next_z_index,
        final(window_manager).snap_threshold == old(window_manager).snap_threshold,
        final(window_manager).is_dragging_window == old(window_manager).is_dragging_window,
        final(window_manager).is_resizing_window == old(window_manager).is_resizing_window,
        final(window_manager).dragging_window_entity == old(window_manager).dragging_window_entity,
{
    let mut placements: Vec<ContentPlacement> = Vec::new();
    let ghost updates = window_manager.pending_content_updates@;
    let ghost s0 = registry.entities@;
    let mut i: usize = 0;
    while i < window_manager.pending_content_updates.len()
        invariant
            i <= updates.len(),
            registry.wf(),
            window_manager.pending_content_updates@ == updates,
            window_manager.next_z_index == old(window_manager).next_z_index,
            window_manager.snap_threshold == old(window_manager).snap_threshold,
            window_manager.is_dragging_window == old(window_manager).is_dragging_window,
            window_manager.is_resizing_window == old(window_manager).is_resizing_window,
            window_manager.dragging_window_entity == old(window_manager).dragging_window_entity,
            content_flushed(registry.entities@, updates, i as int) == content_flushed(
                s0,
                updates,
                0,
            ),
            placements@ + content_placements(registry.entities@, updates, i as int)
                == content_placements(s0, updates, 0),
        decreases updates.len() - i,
    {
        let update = window_manager.pending_content_updates[i];
        let area = find_content_area(registry, update.window_entity);
        if area < registry.entities.len() {
            despawn_below(registry, area, false);
            placements.push(ContentPlacement { content_area: area, builder: update.builder });
        }
        i = i + 1;
    }
    window_manager.pending_content_updates.clear();
    placements
}

} // verus!
