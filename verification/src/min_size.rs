//! The minimum size of a window, derived from its chrome and from the
//! subtree below its content area, and the pass that enforces it.

use vstd::prelude::*;
use crate::geometry::{max_i32, max_int, min_int, Vec2, PIXEL_LIMIT};
use crate::layout::{FlexDirection, Val};
use crate::metrics::{
    ABSOLUTE_MIN_HEIGHT, ABSOLUTE_MIN_WIDTH, CONTENT_MIN_HEIGHT, TITLE_BAR_HEIGHT,
    TITLE_BAR_MIN_WIDTH,
};
use crate::registry::{is_child, is_window, window_of, Role, UiEntity, WindowRegistry};
use crate::transitions::{node_sized, with_record};

use crate::window::Window;

verus! {

/// A width held to the range of stored coordinates.
pub open spec fn capped(v: int) -> int {
    max_int(-PIXEL_LIMIT, min_int(v, PIXEL_LIMIT as int))
}

/// A running minimum width with one more width taken in: a row adds it
/// (capped), any other direction keeps the larger of the two.
pub open spec fn merged(direction: FlexDirection, acc: int, width: int) -> int {
    if direction == FlexDirection::Row {
        capped(acc + width)
    } else {
        max_int(acc, width)
    }
}

/// `c` is a live child of `parent` that counts towards the content
/// width: any node but a window, a title bar or a content area.
pub open spec fn is_content_child(s: Seq<UiEntity>, parent: int, c: int) -> bool {
    &&& is_child(s, parent, c)
    &&& !(s[c].role is Window)
    &&& !(s[c].role is TitleBar)
    &&& !(s[c].role is ContentArea)
}

/// The minimum width of the children of `e` from `c` on, starting from
/// `acc`. Each child takes in its own requested width and then the
/// minimum width of its own children, both by its own direction.
pub open spec fn content_width_scan(s: Seq<UiEntity>, e: int, c: int, acc: int) -> int
    decreases s.len() - e, s.len() - c,
{
    if e < 0 || c <= e || c >= s.len() {
        acc
    } else if is_content_child(s, e, c) {
        let direction = s[c].node.flex_direction;
        let own = merged(direction, acc, capped(s[c].node.requested_width()));
        let both = merged(direction, own, content_width_scan(s, c, c + 1, 0));
        content_width_scan(s, e, c + 1, both)
    } else {
        content_width_scan(s, e, c + 1, acc)
    }
}

/// The minimum width of what lies below `e`.
pub open spec fn content_minimum_width(s: Seq<UiEntity>, e: int) -> int {
    content_width_scan(s, e, e + 1, 0)
}

/// Some live child of `window` is a title bar.
pub open spec fn has_title_bar(s: Seq<UiEntity>, window: int) -> bool {
    exists|c: int| #[trigger] is_child(s, window, c) && s[c].role is TitleBar
}

/// `c` is a live child of `window` and a content area.
pub open spec fn is_content_area_of(s: Seq<UiEntity>, window: int, c: int) -> bool {
    is_child(s, window, c) && s[c].role is ContentArea
}

/// The first content area among the children of `window` from `c` on, or
/// the length of the arena.
pub open spec fn first_content_area(s: Seq<UiEntity>, window: int, c: int) -> int
    decreases s.len() - c,
{
    if c < 0 || c >= s.len() {
        s.len() as int
    } else if is_content_area_of(s, window, c) {
        c
    } else {
        first_content_area(s, window, c + 1)
    }
}

/// The minimum width of `window`: the absolute floor, the title bar's
/// demand if it has one, and the demand of its content.
pub open spec fn window_minimum_width(s: Seq<UiEntity>, window: int) -> int {
    let chrome = if has_title_bar(s, window) {
        max_int(ABSOLUTE_MIN_WIDTH as int, TITLE_BAR_MIN_WIDTH as int)
    } else {
        ABSOLUTE_MIN_WIDTH as int
    };
    let area = first_content_area(s, window, 0);
    if area < s.len() {
        max_int(chrome, content_minimum_width(s, area))
    } else {
        chrome
    }
}

/// The minimum height of `window`: the title bar and, if it has a
/// content area, the least content height.
pub open spec fn window_minimum_height(s: Seq<UiEntity>, window: int) -> int {
    if first_content_area(s, window, 0) < s.len() {
        ABSOLUTE_MIN_HEIGHT + CONTENT_MIN_HEIGHT
    } else {
        ABSOLUTE_MIN_HEIGHT as int
    }
}

fn cap(v: i64) -> (r: i32)
    ensures
        r == capped(v as int),
{
    if v > PIXEL_LIMIT as i64 {
        PIXEL_LIMIT
    } else if v < -(PIXEL_LIMIT as i64) {
        -PIXEL_LIMIT
    } else {
        v as i32
    }
}

fn merge(direction: FlexDirection, acc: i32, width: i32) -> (r: i32)
    requires
        -PIXEL_LIMIT <= acc <= PIXEL_LIMIT,
        -PIXEL_LIMIT <= width <= PIXEL_LIMIT,
    ensures
        r == merged(direction, acc as int, width as int),
        -PIXEL_LIMIT <= r <= PIXEL_LIMIT,
{
    match direction {
        FlexDirection::Row => cap(acc as i64 + width as i64),
        _ => max_i32(acc, width),
    }
}

fn counts_for_content(registry: &WindowRegistry, parent: usize, c: usize) -> (r: bool)
    requires
        c < registry.entities.len(),
    ensures
        r == is_content_child(registry.entities@, parent as int, c as int),
{
    let e = &registry.entities[c];
    let below = match e.parent {
        Some(p) => p == parent && parent < c,
        None => false,
    };
    e.alive && below && !matches!(
        e.role,
        Role::Window(_) | Role::TitleBar(_) | Role::ContentArea(_, _)
    )
}

/// Computes [`content_minimum_width`].
pub fn calculate_content_minimum_width(registry: &WindowRegistry, content_entity: usize) -> (w:
    i32)
    ensures
        w == content_minimum_width(registry.entities@, content_entity as int),
        -PIXEL_LIMIT <= w <= PIXEL_LIMIT,
    decreases registry.entities.len() - content_entity,
{
    let mut acc: i32 = 0;
    if content_entity >= registry.entities.len() {
        return acc;
    }
    let mut c: usize = content_entity + 1;
    while c < registry.entities.len()
        invariant
            content_entity < c <= registry.entities.len(),
            -PIXEL_LIMIT <= acc <= PIXEL_LIMIT,
            content_width_scan(registry.entities@, content_entity as int, c as int, acc as int)
                == content_minimum_width(registry.entities@, content_entity as int),
        decreases registry.entities.len() - c,
    {
        if counts_for_content(registry, content_entity, c) {
            let direction = registry.entities[c].node.flex_direction;
            let request = registry.entities[c].node.width_request();
            let own = merge(direction, acc, cap(request as i64));
            let below = calculate_content_minimum_width(registry, c);
            acc = merge(direction, own, below);
        }
        c = c + 1;
    }
    acc
}

fn is_live_child(registry: &WindowRegistry, parent: usize, c: usize) -> (r: bool)
    requires
        c < registry.entities.len(),
    ensures
        r == is_child(registry.entities@, parent as int, c as int),
{
    let e = &registry.entities[c];
    let below = match e.parent {
        Some(p) => p == parent && parent < c,
        None => false,
    };
    e.alive && below
}

/// The minimum size of window `window_entity`.
pub fn calculate_window_minimum_size(registry: &WindowRegistry, window_entity: usize) -> (m: Vec2)
    ensures
        m.x == window_minimum_width(registry.entities@, window_entity as int),
        m.y == window_minimum_height(registry.entities@, window_entity as int),
        ABSOLUTE_MIN_WIDTH <= m.x <= PIXEL_LIMIT,
        ABSOLUTE_MIN_HEIGHT <= m.y <= ABSOLUTE_MIN_HEIGHT + CONTENT_MIN_HEIGHT,
{
    let mut min_width: i32 = ABSOLUTE_MIN_WIDTH;
    let mut min_height: i32 = ABSOLUTE_MIN_HEIGHT;
    let mut c: usize = 0;
    let mut found_bar = false;
    while c < registry.entities.len()
        invariant
            c <= registry.entities.len(),
            found_bar == exists|k: int|
                0 <= k < c && #[trigger] is_child(registry.entities@, window_entity as int, k)
                    && registry.entities@[k].role is TitleBar,
        decreases registry.entities.len() - c,
    {
        if is_live_child(registry, window_entity, c) && matches!(
            registry.entities[c].role,
            Role::TitleBar(_)
        ) {
            found_bar = true;
        }
        c = c + 1;
    }
    if found_bar {
        min_width = max_i32(min_width, TITLE_BAR_MIN_WIDTH);
        min_height = TITLE_BAR_HEIGHT;
    }
    let mut a: usize = 0;
    while a < registry.entities.len()
        invariant
            a <= registry.entities.len(),
            first_content_area(registry.entities@, window_entity as int, a as int)
                == first_content_area(registry.entities@, window_entity as int, 0),
            min_height == ABSOLUTE_MIN_HEIGHT,
            min_width == if has_title_bar(registry.entities@, window_entity as int) {
                max_int(ABSOLUTE_MIN_WIDTH as int, TITLE_BAR_MIN_WIDTH as int)
            } else {
                ABSOLUTE_MIN_WIDTH as int
            },
        decreases registry.entities.len() - a,
    {
        if is_live_child(registry, window_entity, a) && matches!(
            registry.entities[a].role,
            Role::ContentArea(_, _)
        ) {
            let content_min_width = calculate_content_minimum_width(registry, a);
            min_width = max_i32(min_width, content_min_width);
            min_height = min_height + CONTENT_MIN_HEIGHT;
            return Vec2 { x: min_width, y: min_height };
        }
        a = a + 1;
    }
    Vec2 { x: min_width, y: min_height }
}

/// The record grown to at least the given size.
pub open spec fn grown(w: Window, min_x: int, min_y: int) -> Window {
    Window {
        size: Vec2 {
            x: max_int(w.size.x as int, min_x) as i32,
            y: max_int(w.size.y as int, min_y) as i32,
        },
        ..w
    }
}

/// Window `e` is held to its minimum size: it is live, in none of the
/// collapsed, maximized and minimized states, and below its minimum in
/// some dimension.
pub open spec fn needs_growing(s: Seq<UiEntity>, e: int) -> bool {
    &&& is_window(s, e)
    &&& window_of(s, e).resizable()
    &&& (window_of(s, e).size.x < window_minimum_width(s, e) || window_of(s, e).size.y
        < window_minimum_height(s, e))
}

/// The arena after the minimum size of entity `e` was enforced: a window
/// that needs growing grows to its minimum in both dimensions. A
/// collapsed, maximized or minimized window keeps the size that its
/// state gave it.
pub open spec fn enforced(s: Seq<UiEntity>, e: int) -> Seq<UiEntity> {
    if needs_growing(s, e) {
        let w = grown(window_of(s, e), window_minimum_width(s, e), window_minimum_height(s, e));
        with_record(s, e, w, node_sized(s[e].node, w.size))
    } else {
        s
    }
}

/// The arena after the minimum sizes of the entities from `e` on were
/// enforced, in the order of the arena.
pub open spec fn enforced_from(s: Seq<UiEntity>, e: int) -> Seq<UiEntity>
    decreases s.len() - e,
{
    if e < 0 || e >= s.len() {
        s
    } else {
        enforced_from(enforced(s, e), e + 1)
    }
}

/// Grows window `window_entity` to its minimum size if it is below it
/// and in none of the collapsed, maximized and minimized states.
pub fn enforce_window_minimum_size(registry: &mut WindowRegistry, window_entity: usize)
    requires
        old(registry).wf(),
    ensures
        final(registry).entities@ == enforced(old(registry).entities@, window_entity as int),
        final(registry).entities.len() == old(registry).entities.len(),
        final(registry).wf(),
{
    if !registry.contains_window(window_entity) {
        return ;
    }
    let min_size = calculate_window_minimum_size(registry, window_entity);
    let mut size = Vec2 { x: 0, y: 0 };
    let mut grew = false;
    match &mut registry.entities[window_entity].role {
        Role::Window(w) => {
            let free = !w.is_collapsed && !w.is_maximized && !w.is_minimized;
            if free && (w.size.x < min_size.x || w.size.y < min_size.y) {
                w.size.x = max_i32(w.size.x, min_size.x);
                w.size.y = max_i32(w.size.y, min_size.y);
                size = w.size;
                grew = true;
            }
        },
        _ => {},
    }
    if grew {
        registry.entities[window_entity].node.width = Val::Px(size.x);
        registry.entities[window_entity].node.height = Val::Px(size.y);
    }
}

/// Enforces the minimum size of every live window that is in none of
/// the three states. Run last in a frame, it catches whatever an earlier
/// step shrank.
pub fn enforce_window_minimum_sizes(registry: &mut WindowRegistry)
    requires
        old(registry).wf(),
    ensures
        final(registry).entities@ == enforced_from(old(registry).entities@, 0),
        final(registry).wf(),
{
    let mut e: usize = 0;
    while e < registry.entities.len()
        invariant
            registry.wf(),
            registry.entities.len() == old(registry).entities.len(),
            e <= registry.entities.len(),
            enforced_from(registry.entities@, e as int) == enforced_from(
                old(registry).entities@,
                0,
            ),
        decreases registry.entities.len() - e,
    {
        enforce_window_minimum_size(registry, e);
        e = e + 1;
    }
}

} // verus!
