//! Showing and hiding the parts of a window.
//!
//! Both passes walk the arena once, front to back, instead of descending
//! through the tree.

use vstd::prelude::*;
use crate::layout::Visibility;
use crate::registry::{is_under, parents_first, Role, UiEntity, WindowRegistry};

verus! {

/// The visibility that stands for shown or hidden.
pub open spec fn visibility_for(show: bool) -> Visibility {
    if show {
        Visibility::Inherited
    } else {
        Visibility::Hidden
    }
}

/// `e` is a content area or a resize handle below `window`.
pub open spec fn is_window_part(s: Seq<UiEntity>, window: int, e: int) -> bool {
    &&& 0 <= e < s.len()
    &&& e != window
    &&& is_under(s, window, e)
    &&& (s[e].role is ContentArea || s[e].role is ResizeHandle)
}

/// `e` is a resize handle at or below `window`.
pub open spec fn is_window_handle(s: Seq<UiEntity>, window: int, e: int) -> bool {
    &&& 0 <= e < s.len()
    &&& is_under(s, window, e)
    &&& s[e].role is ResizeHandle
}

/// The arena after the content areas and resize handles below `window`
/// were shown or hidden.
pub open spec fn children_shown(s: Seq<UiEntity>, window: int, show: bool) -> Seq<UiEntity> {
    Seq::new(
        s.len(),
        |e: int|
            if is_window_part(s, window, e) {
                UiEntity { visibility: visibility_for(show), ..s[e] }
            } else {
                s[e]
            },
    )
}

/// The arena after the resize handles at or below `window` were shown or
/// hidden.
pub open spec fn handles_shown(s: Seq<UiEntity>, window: int, show: bool) -> Seq<UiEntity> {
    Seq::new(
        s.len(),
        |e: int|
            if is_window_handle(s, window, e) {
                UiEntity { visibility: visibility_for(show), ..s[e] }
            } else {
                s[e]
            },
    )
}

/// Two arenas of one shape: the same entities with the same parents.
pub open spec fn same_shape(a: Seq<UiEntity>, b: Seq<UiEntity>) -> bool {
    &&& a.len() == b.len()
    &&& forall|e: int| 0 <= e < a.len() ==> (#[trigger] a[e]).parent == b[e].parent
}

/// What lies below what depends on the shape alone.
pub proof fn lemma_same_shape_under(a: Seq<UiEntity>, b: Seq<UiEntity>, root: int, e: int)
    requires
        same_shape(a, b),
    ensures
        is_under(a, root, e) == is_under(b, root, e),
    decreases e,
{
    if e != root && 0 <= e < a.len() {
        match a[e].parent {
            Some(p) => {
                if p < e {
                    lemma_same_shape_under(a, b, root, p as int);
                }
            },
            None => {},
        }
    }
}

/// Well-formedness depends on the shape alone.
pub proof fn lemma_same_shape_wf(a: Seq<UiEntity>, b: Seq<UiEntity>)
    requires
        same_shape(a, b),
        parents_first(a),
    ensures
        parents_first(b),
{
    assert forall|e: int| 0 <= e < b.len() implies ((#[trigger] b[e]).parent matches Some(p) ==> p
        < e) by {
        assert(a[e].parent == b[e].parent);
    }
}

/// Shows or hides the content areas and the resize handles below
/// `window_entity`, however deep they lie.
pub fn hide_window_children(registry: &mut WindowRegistry, window_entity: usize, show: bool)
    requires
        old(registry).wf(),
    ensures
        final(registry).entities@ == children_shown(
            old(registry).entities@,
            window_entity as int,
            show,
        ),
        final(registry).wf(),
{
    let flags = registry.subtree(window_entity);
    let visibility = if show {
        Visibility::Inherited
    } else {
        Visibility::Hidden
    };
    let ghost s0 = registry.entities@;
    let mut e: usize = 0;
    while e < registry.entities.len()
        invariant
            e <= registry.entities.len(),
            registry.entities.len() == s0.len(),
            flags.len() == s0.len(),
            visibility == visibility_for(show),
            forall|j: int|
                0 <= j < flags.len() ==> flags[j] == is_under(s0, window_entity as int, j),
            forall|j: int|
                0 <= j < e ==> registry.entities@[j] == children_shown(
                    s0,
                    window_entity as int,
                    show,
                )[j],
            forall|j: int| e <= j < s0.len() ==> registry.entities@[j] == s0[j],
        decreases registry.entities.len() - e,
    {
        if flags[e] && e != window_entity {
            let part = matches!(
                registry.entities[e].role,
                Role::ContentArea(_, _) | Role::ResizeHandle(_, _)
            );
            if part {
                registry.entities[e].visibility = visibility;
            }
        }
        e = e + 1;
    }
}

/// Shows or hides the resize handles at or below `window_entity`.
pub fn hide_resize_handles(registry: &mut WindowRegistry, window_entity: usize, show: bool)
    requires
        old(registry).wf(),
    ensures
        final(registry).entities@ == handles_shown(
            old(registry).entities@,
            window_entity as int,
            show,
        ),
        final(registry).wf(),
{
    let flags = registry.subtree(window_entity);
    let visibility = if show {
        Visibility::Inherited
    } else {
        Visibility::Hidden
    };
    let ghost s0 = registry.entities@;
    let mut e: usize = 0;
    while e < registry.entities.len()
        invariant
            e <= registry.entities.len(),
            registry.entities.len() == s0.len(),
            flags.len() == s0.len(),
            visibility == visibility_for(show),
            forall|j: int|
                0 <= j < flags.len() ==> flags[j] == is_under(s0, window_entity as int, j),
            forall|j: int|
                0 <= j < e ==> registry.entities@[j] == handles_shown(
                    s0,
                    window_entity as int,
                    show,
                )[j],
            forall|j: int| e <= j < s0.len() ==> registry.entities@[j] == s0[j],
        decreases registry.entities.len() - e,
    {
        if flags[e] {
            let handle = matches!(registry.entities[e].role, Role::ResizeHandle(_, _));
            if handle {
                registry.entities[e].visibility = visibility;
            }
        }
        e = e + 1;
    }
}

} // verus!
