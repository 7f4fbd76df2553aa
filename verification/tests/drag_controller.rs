use window_manager::chrome::create_window;
use window_manager::drag::{begin_drag, continue_drag, drag_step, handle_window_drag};
use window_manager::events::WindowDragEvent;
use window_manager::geometry::{clamp_extent, Rect, Vec2};
use window_manager::gesture::{collect_obstacles, Pointer};
use window_manager::handle::ResizeHandle;
use window_manager::layout::Val;
use window_manager::manager::WindowManager;
use window_manager::registry::{Role, WindowRegistry};
use window_manager::transitions::{maximize_window, minimize_window};

const SCREEN: Vec2 = Vec2 { x: 800, y: 600 };

fn at(x: i32, y: i32) -> Option<Pointer> {
    Some(Pointer { cursor: Vec2::new(x, y), screen: SCREEN })
}

fn start(id: usize) -> WindowDragEvent {
    WindowDragEvent {
        window_entity: id,
        position: Vec2::zero(),
        drag_offset: Vec2::zero(),
        drag_handle: None,
    }
}

fn setup() -> (WindowRegistry, WindowManager, usize) {
    let mut registry = WindowRegistry::new();
    let mut manager = WindowManager::default();
    let id = create_window(&mut registry, &mut manager, "C", Vec2::new(400, 300), Vec2::new(100, 100));
    (registry, manager, id)
}

fn position(registry: &WindowRegistry, id: usize) -> Vec2 {
    registry.window(id).unwrap().position
}

#[test]
fn clamp_extent_holds_value_between_zero_and_bound() {
    assert_eq!(clamp_extent(-5, 100), 0);
    assert_eq!(clamp_extent(50, 100), 50);
    assert_eq!(clamp_extent(150, 100), 100);
    assert_eq!(clamp_extent(100, 100), 100);
    assert_eq!(clamp_extent(50, -1), 0);
    assert_eq!(clamp_extent(0, 0), 0);
}

#[test]
fn drag_start_marks_the_window_and_the_manager() {
    let (mut registry, mut manager, id) = setup();
    let mut last = None;
    begin_drag(&mut registry, &mut manager, &mut last, id, at(150, 110));
    let w = registry.window(id).unwrap();
    assert_eq!(w.drag_handle, Some(ResizeHandle::DragSentinel));
    assert_eq!(w.drag_offset, Vec2::new(50, 10));
    assert_eq!(manager.dragging_window_entity, Some(id));
    assert!(manager.is_dragging_window);
    assert_eq!(last, Some(Vec2::new(150, 110)));
}

#[test]
fn drag_follows_the_cursor_delta() {
    let (mut registry, mut manager, id) = setup();
    let mut last = None;
    let snap = handle_window_drag(&vec![start(id)], &mut registry, true, at(150, 110), &mut last, &mut manager);
    // The first frame has a zero delta: the window stays.
    assert!(snap.is_some());
    assert_eq!(position(&registry, id), Vec2::new(100, 100));
    let snap = handle_window_drag(&vec![], &mut registry, true, at(180, 150), &mut last, &mut manager);
    assert!(!snap.unwrap().snapped);
    assert_eq!(position(&registry, id), Vec2::new(130, 140));
    assert_eq!(registry.entities[id].node.left, Val::Px(130));
    assert_eq!(registry.entities[id].node.top, Val::Px(140));
    assert_eq!(registry.window(id).unwrap().size, Vec2::new(400, 300));
    assert_eq!(last, Some(Vec2::new(180, 150)));
}

#[test]
fn dragging_right_edge_to_796_snaps_it_to_800() {
    let (mut registry, mut manager, id) = setup();
    let mut last = None;
    handle_window_drag(&vec![start(id)], &mut registry, true, at(200, 120), &mut last, &mut manager);
    // Move by +296: the right edge would be at 100 + 296 + 400 = 796.
    let snap = handle_window_drag(&vec![], &mut registry, true, at(496, 120), &mut last, &mut manager)
        .expect("a drag step was taken");
    let w = registry.window(id).unwrap();
    assert_eq!(w.position.x + w.size.x, 800);
    assert_eq!(w.position, Vec2::new(400, 100));
    assert!(snap.snapped);
    assert!(snap.snap_edges.right);
}

#[test]
fn dragging_next_to_a_sibling_snaps_to_its_edge() {
    let mut registry = WindowRegistry::new();
    let mut manager = WindowManager::default();
    let b = create_window(&mut registry, &mut manager, "B", Vec2::new(200, 200), Vec2::new(0, 0));
    let c = create_window(&mut registry, &mut manager, "C", Vec2::new(100, 100), Vec2::new(300, 50));
    let mut last = None;
    handle_window_drag(&vec![start(c)], &mut registry, true, at(320, 60), &mut last, &mut manager);
    // Move left by 97: the left edge would be at 203.
    let snap = handle_window_drag(&vec![], &mut registry, true, at(223, 60), &mut last, &mut manager);
    assert_eq!(position(&registry, c).x, 200);
    assert_eq!(position(&registry, c).y, 50);
    assert!(snap.unwrap().snap_edges.left);
    assert_eq!(position(&registry, b), Vec2::new(0, 0));
}

#[test]
fn drag_never_leaves_the_screen() {
    let (mut registry, mut manager, id) = setup();
    let mut last = None;
    handle_window_drag(&vec![start(id)], &mut registry, true, at(150, 150), &mut last, &mut manager);
    for (x, y) in [(-900, -900), (5000, 40), (150, 7000), (9000, 9000), (-3, 2)] {
        handle_window_drag(&vec![], &mut registry, true, at(x, y), &mut last, &mut manager);
        let w = registry.window(id).unwrap();
        assert!(0 <= w.position.x && w.position.x <= SCREEN.x - w.size.x);
        assert!(0 <= w.position.y && w.position.y <= SCREEN.y - w.size.y);
    }
    assert_eq!(position(&registry, id), Vec2::new(0, 0));
}

#[test]
fn clamp_wins_over_a_snap_that_would_leave_the_screen() {
    // The sibling's right edge lies at 500; snapping the window's left
    // edge there would push its right edge to 900 on a screen of 800.
    let sibling = Rect::new(Vec2::new(300, 0), Vec2::new(200, 600));
    let (to, snap) = drag_step(
        Vec2::new(498, 100),
        Vec2::new(400, 300),
        Vec2::new(0, 0),
        Vec2::new(0, 0),
        &vec![sibling],
        SCREEN,
        4,
    );
    assert!(snap.snapped);
    assert_eq!(snap.position.x, 500);
    assert_eq!(to, Vec2::new(400, 100));
}

#[test]
fn window_larger_than_the_screen_is_held_at_the_origin() {
    let (to, _) = drag_step(
        Vec2::new(10, 10),
        Vec2::new(1000, 700),
        Vec2::new(30, 30),
        Vec2::new(0, 0),
        &vec![],
        SCREEN,
        4,
    );
    assert_eq!(to, Vec2::new(0, 0));
}

#[test]
fn release_ends_the_drag() {
    let (mut registry, mut manager, id) = setup();
    let mut last = None;
    handle_window_drag(&vec![start(id)], &mut registry, true, at(150, 150), &mut last, &mut manager);
    let snap = handle_window_drag(&vec![], &mut registry, false, at(400, 400), &mut last, &mut manager);
    assert!(snap.is_none());
    assert_eq!(registry.window(id).unwrap().drag_handle, None);
    assert_eq!(manager.dragging_window_entity, None);
    assert!(!manager.is_dragging_window);
    assert_eq!(last, None);
    assert_eq!(position(&registry, id), Vec2::new(100, 100));
    // With the button up nothing moves any more.
    continue_drag(&mut registry, &mut manager, &mut last, true, at(500, 500));
    assert_eq!(position(&registry, id), Vec2::new(100, 100));
}

#[test]
fn maximized_and_minimized_windows_ignore_drags() {
    let (mut registry, mut manager, id) = setup();
    maximize_window(&mut registry, id, SCREEN);
    let mut last = None;
    let snap =
        handle_window_drag(&vec![start(id)], &mut registry, true, at(10, 10), &mut last, &mut manager);
    assert!(snap.is_none());
    assert_eq!(registry.window(id).unwrap().drag_handle, None);
    assert_eq!(manager.dragging_window_entity, None);
    handle_window_drag(&vec![], &mut registry, true, at(50, 50), &mut last, &mut manager);
    assert_eq!(position(&registry, id), Vec2::new(0, 0));

    maximize_window(&mut registry, id, SCREEN);
    minimize_window(&mut registry, &mut manager, id, SCREEN);
    let chip = position(&registry, id);
    let mut last = None;
    handle_window_drag(&vec![start(id)], &mut registry, true, at(10, 10), &mut last, &mut manager);
    handle_window_drag(&vec![], &mut registry, true, at(50, 50), &mut last, &mut manager);
    assert_eq!(position(&registry, id), chip);
}

#[test]
fn drag_without_screen_or_cursor_does_nothing() {
    let (mut registry, mut manager, id) = setup();
    let mut last = None;
    let snap = handle_window_drag(&vec![start(id)], &mut registry, true, None, &mut last, &mut manager);
    assert!(snap.is_none());
    assert_eq!(registry.window(id).unwrap().drag_handle, None);
    assert_eq!(manager.dragging_window_entity, None);
    assert_eq!(last, None);
}

#[test]
fn drag_start_on_a_stale_id_changes_nothing() {
    let (mut registry, mut manager, id) = setup();
    let mut last = None;
    begin_drag(&mut registry, &mut manager, &mut last, 999, at(10, 20));
    begin_drag(&mut registry, &mut manager, &mut last, id + 1, at(10, 20));
    assert_eq!(last, None);
    assert_eq!(manager.dragging_window_entity, None);
    assert!(!manager.is_dragging_window);
    assert_eq!(registry.window(id).unwrap().drag_handle, None);
}

#[test]
fn obstacles_leave_out_the_moved_the_maximized_and_the_dragged() {
    let mut registry = WindowRegistry::new();
    let mut manager = WindowManager::default();
    let a = create_window(&mut registry, &mut manager, "A", Vec2::new(100, 100), Vec2::new(0, 0));
    let b = create_window(&mut registry, &mut manager, "B", Vec2::new(110, 100), Vec2::new(10, 0));
    let c = create_window(&mut registry, &mut manager, "C", Vec2::new(120, 100), Vec2::new(20, 0));
    let d = create_window(&mut registry, &mut manager, "D", Vec2::new(130, 100), Vec2::new(30, 0));
    maximize_window(&mut registry, b, SCREEN);
    if let Role::Window(w) = &mut registry.entities[c].role {
        w.drag_handle = Some(ResizeHandle::DragSentinel);
    }
    assert_eq!(
        collect_obstacles(&registry, a),
        vec![Rect::new(Vec2::new(30, 0), Vec2::new(130, 100))]
    );
    assert_eq!(
        collect_obstacles(&registry, d),
        vec![Rect::new(Vec2::new(0, 0), Vec2::new(100, 100))]
    );
}
