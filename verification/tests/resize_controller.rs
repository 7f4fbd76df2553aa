use window_manager::chrome::create_window;
use window_manager::events::WindowResizeEvent;
use window_manager::geometry::{Rect, Vec2};
use window_manager::gesture::Pointer;
use window_manager::handle::ResizeHandle;
use window_manager::layout::{Node, Val};
use window_manager::manager::WindowManager;
use window_manager::min_size::{
    calculate_content_minimum_width, calculate_window_minimum_size,
    enforce_window_minimum_sizes,
};
use window_manager::registry::{Role, WindowRegistry};
use window_manager::resize::{begin_resize, handle_window_resize, resize_step};
use window_manager::router::{handle_resize_interactions, Interaction, InteractionChange};
use window_manager::transitions::collapse_window;
use window_manager::layout::FlexDirection;

const SCREEN: Vec2 = Vec2 { x: 800, y: 600 };

const MIN: Vec2 = Vec2 { x: 158, y: 80 };

fn at(x: i32, y: i32) -> Option<Pointer> {
    Some(Pointer { cursor: Vec2::new(x, y), screen: SCREEN })
}

fn step(position: (i32, i32), size: (i32, i32), handle: ResizeHandle, delta: (i32, i32)) -> Rect {
    resize_step(
        Vec2::new(position.0, position.1),
        Vec2::new(size.0, size.1),
        handle,
        Vec2::new(delta.0, delta.1),
        Vec2::new(0, 0),
        MIN,
        &vec![],
        SCREEN,
        4,
    )
    .0
}

fn rect(x: i32, y: i32, w: i32, h: i32) -> Rect {
    Rect::new(Vec2::new(x, y), Vec2::new(w, h))
}

#[test]
fn right_handle_grows_width_by_delta() {
    assert_eq!(step((100, 100), (400, 300), ResizeHandle::Right, (50, 70)), rect(100, 100, 450, 300));
}

#[test]
fn right_handle_stops_at_minimum_and_at_the_screen() {
    assert_eq!(step((100, 100), (400, 300), ResizeHandle::Right, (-900, 0)), rect(100, 100, 158, 300));
    assert_eq!(step((100, 100), (400, 300), ResizeHandle::Right, (900, 0)), rect(100, 100, 700, 300));
}

#[test]
fn bottom_handle_grows_height_only() {
    assert_eq!(step((100, 100), (400, 300), ResizeHandle::Bottom, (50, 70)), rect(100, 100, 400, 370));
    assert_eq!(step((100, 100), (400, 300), ResizeHandle::Bottom, (0, -900)), rect(100, 100, 400, 80));
    assert_eq!(step((100, 100), (400, 300), ResizeHandle::Bottom, (0, 900)), rect(100, 100, 400, 500));
}

#[test]
fn bottom_right_handle_grows_both() {
    assert_eq!(
        step((100, 100), (400, 300), ResizeHandle::BottomRight, (10, 20)),
        rect(100, 100, 410, 320)
    );
}

#[test]
fn left_handle_keeps_the_right_edge() {
    let r = step((100, 100), (400, 300), ResizeHandle::Left, (-30, 99));
    assert_eq!(r, rect(70, 100, 430, 300));
    assert_eq!(r.position.x + r.size.x, 500);
    let r = step((100, 100), (400, 300), ResizeHandle::Left, (900, 0));
    assert_eq!(r, rect(342, 100, 158, 300));
}

#[test]
fn top_handle_keeps_the_bottom_edge() {
    let r = step((100, 100), (400, 300), ResizeHandle::Top, (7, 20));
    assert_eq!(r, rect(100, 120, 400, 280));
    assert_eq!(r.position.y + r.size.y, 400);
}

#[test]
fn top_left_rejects_only_the_axis_that_would_go_negative() {
    // x would go to -50: that axis stays; y is applied.
    let r = step((100, 100), (400, 300), ResizeHandle::TopLeft, (-150, -40));
    assert_eq!(r, rect(100, 60, 400, 340));
    // y would go to -20: that axis stays; x is applied.
    let r = step((100, 100), (400, 300), ResizeHandle::TopLeft, (-40, -120));
    assert_eq!(r, rect(60, 100, 440, 300));
    // Both would go negative: nothing changes.
    let r = step((100, 100), (400, 300), ResizeHandle::TopLeft, (-101, -101));
    assert_eq!(r, rect(100, 100, 400, 300));
    // Exactly to zero is accepted.
    let r = step((100, 100), (400, 300), ResizeHandle::TopLeft, (-100, -100));
    assert_eq!(r, rect(0, 0, 500, 400));
}

#[test]
fn top_right_and_bottom_left_combine_both_rules() {
    assert_eq!(
        step((100, 100), (400, 300), ResizeHandle::TopRight, (25, 10)),
        rect(100, 110, 425, 290)
    );
    assert_eq!(
        step((100, 100), (400, 300), ResizeHandle::BottomLeft, (25, 10)),
        rect(125, 100, 375, 310)
    );
    // The rejected top edge does not hold back the right edge.
    assert_eq!(
        step((100, 100), (400, 300), ResizeHandle::TopRight, (25, -200)),
        rect(100, 100, 425, 300)
    );
}

#[test]
fn below_minimum_is_rejected_for_that_dimension_only() {
    let r = step((100, 100), (400, 300), ResizeHandle::BottomRight, (-500, 15));
    assert_eq!(r, rect(100, 100, 158, 315));
}

#[test]
fn resize_step_snaps_to_the_screen_edge() {
    let (r, snap) = resize_step(
        Vec2::new(100, 100),
        Vec2::new(400, 300),
        ResizeHandle::Right,
        Vec2::new(297, 0),
        Vec2::new(0, 0),
        MIN,
        &vec![],
        SCREEN,
        4,
    );
    assert!(snap.snapped);
    assert!(snap.snap_edges.right);
    assert_eq!(r, rect(100, 100, 700, 300));
}

#[test]
fn resize_step_snaps_to_a_sibling_edge() {
    let sibling = rect(600, 0, 100, 600);
    let (r, snap) = resize_step(
        Vec2::new(100, 100),
        Vec2::new(400, 300),
        ResizeHandle::Right,
        Vec2::new(98, 0),
        Vec2::new(0, 0),
        MIN,
        &vec![sibling],
        SCREEN,
        4,
    );
    assert!(snap.snapped);
    assert_eq!(r, rect(100, 100, 500, 300));
}

#[test]
fn snap_that_undercuts_the_minimum_is_dropped() {
    // The right edge sits at 259, one from the sibling's left edge at
    // 258; snapping there would leave a width of 157.
    let sibling = rect(258, 0, 100, 600);
    let (r, snap) = resize_step(
        Vec2::new(101, 100),
        Vec2::new(400, 300),
        ResizeHandle::Right,
        Vec2::new(-900, 0),
        Vec2::new(0, 0),
        MIN,
        &vec![sibling],
        SCREEN,
        4,
    );
    assert!(snap.snapped);
    assert_eq!(snap.size.x, 157);
    assert_eq!(r, rect(101, 100, 158, 300));
}

fn window_with_handles() -> (WindowRegistry, WindowManager, usize) {
    let mut registry = WindowRegistry::new();
    let mut manager = WindowManager::default();
    let id = create_window(&mut registry, &mut manager, "R", Vec2::new(400, 300), Vec2::new(100, 100));
    (registry, manager, id)
}

fn handle_entity(registry: &WindowRegistry, kind: ResizeHandle) -> usize {
    registry
        .entities
        .iter()
        .position(|e| matches!(&e.role, Role::ResizeHandle(h, _) if h.handle_type == kind))
        .unwrap()
}

fn press(entity: usize) -> InteractionChange {
    InteractionChange { entity, previous: Interaction::Hovered, current: Interaction::Pressed }
}

#[test]
fn a_resize_gesture_runs_from_press_to_release() {
    let (mut registry, mut manager, id) = window_with_handles();
    let grip = handle_entity(&registry, ResizeHandle::BottomRight);
    let (focus, starts) =
        handle_resize_interactions(&mut registry, &mut manager, &vec![press(grip)], true, at(500, 400));
    assert_eq!(focus.len(), 1);
    assert_eq!(focus[0].window_entity, id);
    assert_eq!(
        starts,
        vec![WindowResizeEvent {
            window_entity: id,
            position: Vec2::new(500, 400),
            size: Vec2::new(400, 300),
            drag_handle: ResizeHandle::BottomRight,
        }]
    );
    assert!(manager.is_resizing_window);
    assert_eq!(registry.window(id).unwrap().drag_handle, Some(ResizeHandle::BottomRight));

    let mut last = None;
    handle_window_resize(&starts, &mut registry, true, at(500, 400), &mut last, &mut manager);
    assert_eq!(manager.dragging_window_entity, Some(id));
    assert_eq!(last, Some(Vec2::new(500, 400)));
    assert_eq!(registry.window(id).unwrap().size, Vec2::new(400, 300));

    let snap = handle_window_resize(&vec![], &mut registry, true, at(520, 450), &mut last, &mut manager);
    assert!(snap.is_some());
    let w = registry.window(id).unwrap();
    assert_eq!(w.size, Vec2::new(420, 350));
    assert_eq!(w.position, Vec2::new(100, 100));
    assert_eq!(registry.entities[id].node.width, Val::Px(420));
    assert_eq!(registry.entities[id].node.height, Val::Px(350));

    let snap = handle_window_resize(&vec![], &mut registry, false, at(520, 450), &mut last, &mut manager);
    assert!(snap.is_none());
    assert_eq!(registry.window(id).unwrap().drag_handle, None);
    assert!(!manager.is_resizing_window);
    assert!(!manager.is_dragging_window);
    assert_eq!(manager.dragging_window_entity, None);
    assert_eq!(last, None);
}

#[test]
fn collapsed_windows_ignore_resizes() {
    let (mut registry, mut manager, id) = window_with_handles();
    collapse_window(&mut registry, id);
    let start = WindowResizeEvent {
        window_entity: id,
        position: Vec2::new(500, 130),
        size: Vec2::new(400, 30),
        drag_handle: ResizeHandle::Right,
    };
    let mut last = None;
    let snap =
        handle_window_resize(&vec![start], &mut registry, true, at(500, 130), &mut last, &mut manager);
    assert!(snap.is_none());
    assert_eq!(manager.dragging_window_entity, None);
    assert!(!manager.is_dragging_window);
    // The cursor is remembered all the same, as in every frame with the
    // button down.
    assert_eq!(last, Some(Vec2::new(500, 130)));
    let snap = handle_window_resize(&vec![], &mut registry, true, at(560, 190), &mut last, &mut manager);
    assert!(snap.is_none());
    assert_eq!(registry.window(id).unwrap().size, Vec2::new(400, 30));
}

#[test]
fn minimum_size_of_a_fresh_window() {
    let (registry, _, id) = window_with_handles();
    assert_eq!(calculate_window_minimum_size(&registry, id), Vec2::new(158, 80));
    // An entity without children has only the absolute floor.
    let leaf = registry.entities.len() - 1;
    assert_eq!(calculate_window_minimum_size(&registry, leaf), Vec2::new(150, 30));
}

fn node(width: Val, min_width: Val, flex_direction: FlexDirection) -> Node {
    Node { width, min_width, flex_direction, ..Node::default() }
}

#[test]
fn content_width_sums_rows_and_takes_the_maximum_of_columns() {
    let (mut registry, _, id) = window_with_handles();
    let area = registry
        .entities
        .iter()
        .position(|e| matches!(e.role, Role::ContentArea(_, _)))
        .unwrap();
    assert_eq!(calculate_content_minimum_width(&registry, area), 0);
    let row = |registry: &mut WindowRegistry, parent, w| {
        registry.spawn(Some(parent), Role::Plain, node(Val::Px(w), Val::Auto, FlexDirection::Row))
    };
    let a = row(&mut registry, area, 100);
    assert_eq!(calculate_content_minimum_width(&registry, area), 100);
    row(&mut registry, area, 120);
    assert_eq!(calculate_content_minimum_width(&registry, area), 220);
    registry.spawn(Some(area), Role::Plain, node(Val::Auto, Val::Px(150), FlexDirection::Column));
    assert_eq!(calculate_content_minimum_width(&registry, area), 220);
    registry.spawn(Some(area), Role::Plain, node(Val::Auto, Val::Px(300), FlexDirection::Column));
    assert_eq!(calculate_content_minimum_width(&registry, area), 300);
    // Children of a child count through the child's direction.
    registry.spawn(Some(a), Role::Plain, node(Val::Px(500), Val::Auto, FlexDirection::Column));
    assert_eq!(calculate_content_minimum_width(&registry, a), 500);
    assert_eq!(calculate_content_minimum_width(&registry, area), 720);
    assert_eq!(calculate_window_minimum_size(&registry, id), Vec2::new(720, 80));
    // Percent and auto widths ask for nothing.
    registry.spawn(Some(area), Role::Plain, node(Val::Percent(100), Val::Auto, FlexDirection::Row));
    assert_eq!(calculate_content_minimum_width(&registry, area), 720);
}

#[test]
fn enforcement_grows_a_window_back_to_its_minimum() {
    let (mut registry, _, id) = window_with_handles();
    if let Role::Window(w) = &mut registry.entities[id].role {
        w.size = Vec2::new(90, 200);
    }
    enforce_window_minimum_sizes(&mut registry);
    assert_eq!(registry.window(id).unwrap().size, Vec2::new(158, 200));
    assert_eq!(registry.entities[id].node.width, Val::Px(158));
    assert_eq!(registry.entities[id].node.height, Val::Px(200));
    if let Role::Window(w) = &mut registry.entities[id].role {
        w.size = Vec2::new(500, 20);
    }
    enforce_window_minimum_sizes(&mut registry);
    assert_eq!(registry.window(id).unwrap().size, Vec2::new(500, 80));
    // A window at or above its minimum is left alone.
    enforce_window_minimum_sizes(&mut registry);
    assert_eq!(registry.window(id).unwrap().size, Vec2::new(500, 80));
}

#[test]
fn enforcement_leaves_collapsed_and_minimized_windows_alone() {
    let (mut registry, mut manager, id) = window_with_handles();
    collapse_window(&mut registry, id);
    enforce_window_minimum_sizes(&mut registry);
    assert_eq!(registry.window(id).unwrap().size, Vec2::new(400, 30));
    collapse_window(&mut registry, id);
    window_manager::transitions::minimize_window(&mut registry, &mut manager, id, SCREEN);
    enforce_window_minimum_sizes(&mut registry);
    assert_eq!(registry.window(id).unwrap().size, Vec2::new(200, 30));
}

#[test]
fn resize_start_on_a_stale_id_changes_nothing() {
    let (registry, mut manager, id) = window_with_handles();
    let mut last = None;
    begin_resize(&registry, &mut manager, &mut last, 999, at(10, 20));
    begin_resize(&registry, &mut manager, &mut last, id + 1, at(10, 20));
    assert_eq!(last, None);
    assert_eq!(manager.dragging_window_entity, None);
    assert!(!manager.is_dragging_window);
    let empty = WindowRegistry::new();
    begin_resize(&empty, &mut manager, &mut last, 0, at(10, 20));
    assert_eq!(manager.dragging_window_entity, None);
    assert_eq!(last, None);
    // A live window does take the gesture.
    begin_resize(&registry, &mut manager, &mut last, id, at(10, 20));
    assert_eq!(manager.dragging_window_entity, Some(id));
    assert_eq!(last, Some(Vec2::new(10, 20)));
}
