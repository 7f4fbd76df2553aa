//! Z-order: every focus hands out the next z-index, which is never given
//! twice, and a sync pass copies the windows' z-indices into the draw
//! order of their root nodes.

use vstd::prelude::*;
use crate::events::WindowFocusEvent;
use crate::manager::WindowManager;
use crate::registry::{is_window, window_of, Role, UiEntity, WindowRegistry};

verus! {

/// A focus request for `id` can be carried out: `id` is a live window and
/// a z-index is left to give.
pub open spec fn can_focus(s: Seq<UiEntity>, id: int, next_z_index: i32) -> bool {
    is_window(s, id) && next_z_index < i32::MAX
}

/// The arena after a focus request for `id`.
pub open spec fn focused(s: Seq<UiEntity>, id: int, next_z_index: i32) -> Seq<UiEntity> {
    if can_focus(s, id, next_z_index) {
        s.update(
            id,
            UiEntity { role: Role::Window(window_of(s, id).focused(next_z_index)), ..s[id] },
        )
    } else {
        s
    }
}

/// The z-order counter after a focus request for `id`.
pub open spec fn focused_counter(s: Seq<UiEntity>, id: int, next_z_index: i32) -> i32 {
    if can_focus(s, id, next_z_index) {
        (next_z_index + 1) as i32
    } else {
        next_z_index
    }
}

/// Every live window lies below the counter, and no two share a z-index.
pub open spec fn z_order_sound(s: Seq<UiEntity>, next_z_index: i32) -> bool {
    &&& forall|i: int| is_window(s, i) ==> (#[trigger] window_of(s, i)).z_index < next_z_index
    &&& forall|i: int, j: int|
        is_window(s, i) && is_window(s, j) && i != j ==> (#[trigger] window_of(s, i)).z_index != (
        #[trigger] window_of(s, j)).z_index
}

/// Brings window `window_entity` to the front. The counter moves on even
/// if the window was in front already.
pub fn focus_window(
    registry: &mut WindowRegistry,
    window_manager: &mut WindowManager,
    window_entity: usize,
)
    requires
        old(registry).wf(),
    ensures
        final(registry).entities@ == focused(
            old(registry).entities@,
            window_entity as int,
            old(window_manager).next_z_index,
        ),
        final(registry).wf(),
        final(window_manager).next_z_index == focused_counter(
            old(registry).entities@,
            window_entity as int,
            old(window_manager).next_z_index,
        ),
        final(window_manager).snap_threshold == old(window_manager).snap_threshold,
        final(window_manager).is_dragging_window == old(window_manager).is_dragging_window,
        final(window_manager).is_resizing_window == old(window_manager).is_resizing_window,
        final(window_manager).dragging_window_entity == old(window_manager).dragging_window_entity,
        final(window_manager).pending_content_updates@ == old(
            window_manager,
        ).pending_content_updates@,
{
    if !registry.contains_window(window_entity) || !window_manager.check_can_raise() {
        return ;
    }
    let z = window_manager.next_z_index;
    match &mut registry.entities[window_entity].role {
        Role::Window(w) => {
            w.z_index = z;
        },
        _ => {},
    }
    window_manager.next_z_index = z + 1;
}

/// The arena after the focus requests from the `i`-th on, in order.
pub open spec fn focused_all(
    s: Seq<UiEntity>,
    events: Seq<WindowFocusEvent>,
    next_z_index: i32,
    i: int,
) -> Seq<UiEntity>
    decreases events.len() - i,
{
    if i < 0 || i >= events.len() {
        s
    } else {
        let id = events[i].window_entity as int;
        focused_all(
            focused(s, id, next_z_index),
            events,
            focused_counter(s, id, next_z_index),
            i + 1,
        )
    }
}

/// The z-order counter after the focus requests from the `i`-th on.
pub open spec fn focused_all_counter(
    s: Seq<UiEntity>,
    events: Seq<WindowFocusEvent>,
    next_z_index: i32,
    i: int,
) -> i32
    decreases events.len() - i,
{
    if i < 0 || i >= events.len() {
        next_z_index
    } else {
        let id = events[i].window_entity as int;
        focused_all_counter(
            focused(s, id, next_z_index),
            events,
            focused_counter(s, id, next_z_index),
            i + 1,
        )
    }
}

/// Carries out the focus requests of one frame, in order.
pub fn handle_window_focus(
    registry: &mut WindowRegistry,
    window_manager: &mut WindowManager,
    events: &Vec<WindowFocusEvent>,
)
    requires
        old(registry).wf(),
    ensures
        final(registry).entities@ == focused_all(
            old(registry).entities@,
            events@,
            old(window_manager).next_z_index,
            0,
        ),
        final(registry).wf(),
        final(window_manager).next_z_index == focused_all_counter(
            old(registry).entities@,
            events@,
            old(window_manager).next_z_index,
            0,
        ),
        final(window_manager).snap_threshold == old(window_manager).snap_threshold,
        final(window_manager).is_dragging_window == old(window_manager).is_dragging_window,
        final(window_manager).is_resizing_window == old(window_manager).is_resizing_window,
        final(window_manager).dragging_window_entity == old(window_manager).dragging_window_entity,
        final(window_manager).pending_content_updates@ == old(
            window_manager,
        ).pending_content_updates@,
{
    let mut i: usize = 0;
    while i < events.len()
        invariant
            i <= events.len(),
            registry.wf(),
            focused_all(registry.entities@, events@, window_manager.next_z_index, i as int)
                == focused_all(
                old(registry).entities@,
                events@,
                old(window_manager).next_z_index,
                0,
            ),
            focused_all_counter(
                registry.entities@,
                events@,
                window_manager.next_z_index,
                i as int,
            ) == focused_all_counter(
                old(registry).entities@,
                events@,
                old(window_manager).next_z_index,
                0,
            ),
            window_manager.snap_threshold == old(window_manager).snap_threshold,
            window_manager.is_dragging_window == old(window_manager).is_dragging_window,
            window_manager.is_resizing_window == old(window_manager).is_resizing_window,
            window_manager.dragging_window_entity == old(window_manager).dragging_window_entity,
            window_manager.pending_content_updates@ == old(
                window_manager,
            ).pending_content_updates@,
        decreases events.len() - i,
    {
        focus_window(registry, window_manager, events[i].window_entity);
        i = i + 1;
    }
}

/// The arena after the z-order sync: the root node of every live window
/// draws at the window's z-index.
pub open spec fn z_order_synced(s: Seq<UiEntity>) -> Seq<UiEntity> {
    Seq::new(
        s.len(),
        |e: int|
            if is_window(s, e) {
                UiEntity { z_index: window_of(s, e).z_index, ..s[e] }
            } else {
                s[e]
            },
    )
}

/// Copies every live window's z-index into the draw order of its root.
pub fn update_window_z_order(registry: &mut WindowRegistry)
    requires
        old(registry).wf(),
    ensures
        final(registry).entities@ == z_order_synced(old(registry).entities@),
        final(registry).wf(),
{
    let ghost s0 = registry.entities@;
    let mut e: usize = 0;
    while e < registry.entities.len()
        invariant
            e <= registry.entities.len(),
            registry.entities.len() == s0.len(),
            forall|j: int| 0 <= j < e ==> registry.entities@[j] == z_order_synced(s0)[j],
            forall|j: int| e <= j < s0.len() ==> registry.entities@[j] == s0[j],
        decreases registry.entities.len() - e,
    {
        if registry.entities[e].alive {
            let z = match &registry.entities[e].role {
                Role::Window(w) => Some(w.z_index),
                _ => None,
            };
            if let Some(z_index) = z {
                registry.entities[e].z_index = z_index;
            }
        }
        e = e + 1;
    }
    proof {
        assert(registry.entities@ =~= z_order_synced(s0));
    }
}

/// Focus is not idempotent: two focus requests for the same window take
/// two z-indices, and the window ends on the later one.
pub proof fn lemma_focus_twice(s: Seq<UiEntity>, id: int, next_z_index: i32)
    requires
        is_window(s, id),
        next_z_index + 1 < i32::MAX,
    ensures
        focused_counter(
            focused(s, id, next_z_index),
            id,
            focused_counter(s, id, next_z_index),
        ) == next_z_index + 2,
        window_of(focused(s, id, next_z_index), id).z_index == next_z_index,
        window_of(
            focused(focused(s, id, next_z_index), id, focused_counter(s, id, next_z_index)),
            id,
        ).z_index == next_z_index + 1,
{
}

/// A focus request keeps the z-order sound: the focused window alone has
/// the highest z-index, and the counter lies above it.
pub proof fn lemma_focus_keeps_z_order(s: Seq<UiEntity>, id: int, next_z_index: i32)
    requires
        z_order_sound(s, next_z_index),
    ensures
        z_order_sound(focused(s, id, next_z_index), focused_counter(s, id, next_z_index)),
        focused_counter(s, id, next_z_index) >= next_z_index,
        can_focus(s, id, next_z_index) ==> forall|j: int|
            is_window(s, j) && j != id ==> (#[trigger] window_of(
                focused(s, id, next_z_index),
                j,
            )).z_index < window_of(focused(s, id, next_z_index), id).z_index,
{
    let t = focused(s, id, next_z_index);
    if can_focus(s, id, next_z_index) {
        assert forall|i: int| is_window(t, i) implies (#[trigger] window_of(t, i)).z_index
            < focused_counter(s, id, next_z_index) by {
            if i != id {
                assert(window_of(s, i).z_index < next_z_index);
            }
        }
        assert forall|i: int, j: int| is_window(t, i) && is_window(t, j) && i != j implies (
        #[trigger] window_of(t, i)).z_index != (#[trigger] window_of(t, j)).z_index by {
            if i != id {
                assert(window_of(s, i).z_index < next_z_index);
            }
            if j != id {
                assert(window_of(s, j).z_index < next_z_index);
            }
        }
    }
}

} // verus!
