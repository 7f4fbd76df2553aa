use window_manager::geometry::{Rect, Vec2};
use window_manager::handle::ResizeHandle;
use window_manager::snap::{points_within, solve_snap, SnapEdges};

fn rect(x: i32, y: i32, w: i32, h: i32) -> Rect {
    Rect::new(Vec2::new(x, y), Vec2::new(w, h))
}

const SCREEN: Vec2 = Vec2 { x: 800, y: 600 };

const NO_EDGES: SnapEdges = SnapEdges { left: false, right: false, top: false, bottom: false };

#[test]
fn right_edge_snaps_to_screen_edge_within_threshold() {
    let r = solve_snap(rect(396, 100, 400, 300), ResizeHandle::DragSentinel, &vec![], SCREEN, 4);
    assert!(r.snapped);
    assert_eq!(r.position, Vec2::new(400, 100));
    assert_eq!(r.size, Vec2::new(400, 300));
    assert_eq!(r.position.x + r.size.x, 800);
    assert_eq!(r.snap_edges, SnapEdges { right: true, ..NO_EDGES });
}

#[test]
fn right_edge_one_pixel_beyond_threshold_does_not_snap() {
    let r = solve_snap(rect(395, 100, 400, 300), ResizeHandle::DragSentinel, &vec![], SCREEN, 4);
    assert!(!r.snapped);
    assert_eq!(r.position, Vec2::new(395, 100));
    assert_eq!(r.snap_edges, NO_EDGES);
}

#[test]
fn left_edge_snaps_to_sibling_right_edge_when_overlapping() {
    let b = rect(0, 0, 200, 200);
    let r = solve_snap(rect(203, 50, 100, 100), ResizeHandle::DragSentinel, &vec![b], SCREEN, 4);
    assert!(r.snapped);
    assert_eq!(r.position, Vec2::new(200, 50));
    assert_eq!(r.size, Vec2::new(100, 100));
    assert_eq!(r.snap_edges, SnapEdges { left: true, ..NO_EDGES });
}

#[test]
fn sibling_edge_needs_overlap_on_the_other_axis() {
    let b = rect(0, 0, 200, 200);
    let r = solve_snap(rect(203, 300, 100, 100), ResizeHandle::DragSentinel, &vec![b], SCREEN, 4);
    assert!(!r.snapped);
    assert_eq!(r.position, Vec2::new(203, 300));
}

#[test]
fn screen_corner_moves_the_whole_window() {
    let r = solve_snap(rect(3, 2, 100, 100), ResizeHandle::DragSentinel, &vec![], SCREEN, 4);
    assert!(r.snapped);
    assert_eq!(r.position, Vec2::new(0, 0));
    assert_eq!(r.size, Vec2::new(100, 100));
    assert_eq!(r.snap_edges, SnapEdges { left: true, top: true, ..NO_EDGES });
}

#[test]
fn screen_corner_uses_euclidean_distance() {
    // (3, 3) is about 4.24 from the origin: no corner match at 4, but
    // each edge on its own is within reach of the screen edge.
    let r = solve_snap(rect(3, 3, 100, 100), ResizeHandle::DragSentinel, &vec![], SCREEN, 4);
    assert!(r.snapped);
    assert_eq!(r.position, Vec2::new(0, 0));
    // (3, 4) is exactly 5 away.
    assert!(points_within(3, 4, 0, 0, 5));
    assert!(!points_within(3, 4, 0, 0, 4));
    assert!(points_within(-3, -4, 0, 0, 5));
}

#[test]
fn bottom_right_screen_corner_moves_by_the_corner_delta() {
    let r = solve_snap(rect(698, 497, 100, 100), ResizeHandle::DragSentinel, &vec![], SCREEN, 4);
    assert!(r.snapped);
    assert_eq!(r.position, Vec2::new(700, 500));
    assert_eq!(r.snap_edges, SnapEdges { right: true, bottom: true, ..NO_EDGES });
}

#[test]
fn screen_edge_wins_over_sibling_corner() {
    // The sibling's corner is exactly at the window's top-left corner,
    // but the left screen edge is tried first.
    let sibling = rect(-98, -60, 100, 160);
    let r = solve_snap(rect(2, 100, 100, 100), ResizeHandle::DragSentinel, &vec![sibling], SCREEN, 4);
    assert!(r.snapped);
    assert_eq!(r.position, Vec2::new(0, 100));
    assert_eq!(r.snap_edges, SnapEdges { left: true, ..NO_EDGES });
}

#[test]
fn sibling_corner_wins_over_sibling_edge() {
    // Window's top-left corner is 2px right and 1px below the sibling's
    // bottom-right corner: the corner match moves both axes.
    let sibling = rect(100, 100, 100, 100);
    let r = solve_snap(rect(202, 201, 50, 50), ResizeHandle::DragSentinel, &vec![sibling], SCREEN, 4);
    assert!(r.snapped);
    assert_eq!(r.position, Vec2::new(200, 200));
    assert_eq!(r.snap_edges, SnapEdges { left: true, top: true, ..NO_EDGES });
}

#[test]
fn first_obstacle_in_order_decides() {
    let near = rect(100, 100, 100, 200);
    let nearer = rect(100, 100, 101, 200);
    let r = solve_snap(
        rect(203, 150, 50, 50),
        ResizeHandle::DragSentinel,
        &vec![near, nearer],
        SCREEN,
        4,
    );
    assert_eq!(r.position.x, 200);
    let r = solve_snap(
        rect(203, 150, 50, 50),
        ResizeHandle::DragSentinel,
        &vec![nearer, near],
        SCREEN,
        4,
    );
    assert_eq!(r.position.x, 201);
}

#[test]
fn resize_right_snaps_only_the_right_edge_and_keeps_the_left() {
    let r = solve_snap(rect(100, 100, 697, 300), ResizeHandle::Right, &vec![], SCREEN, 4);
    assert!(r.snapped);
    assert_eq!(r.position, Vec2::new(100, 100));
    assert_eq!(r.size, Vec2::new(700, 300));
    assert_eq!(r.snap_edges, SnapEdges { right: true, ..NO_EDGES });
}

#[test]
fn resize_left_recomputes_width_from_the_fixed_right_edge() {
    let r = solve_snap(rect(3, 100, 300, 200), ResizeHandle::Left, &vec![], SCREEN, 4);
    assert!(r.snapped);
    assert_eq!(r.position, Vec2::new(0, 100));
    assert_eq!(r.size, Vec2::new(303, 200));
    assert_eq!(r.snap_edges, SnapEdges { left: true, ..NO_EDGES });
}

#[test]
fn resize_handle_ignores_edges_it_does_not_move() {
    // The top edge is 2px from the screen's, but the handle is Right.
    let r = solve_snap(rect(100, 2, 300, 200), ResizeHandle::Right, &vec![], SCREEN, 4);
    assert!(!r.snapped);
    assert_eq!(r.position, Vec2::new(100, 2));
    assert_eq!(r.size, Vec2::new(300, 200));
}

#[test]
fn resize_never_snaps_to_screen_corners() {
    // For a drag, the top-left corner would match the screen's; for a
    // resize by TopLeft both edges snap, each by the edge stage, and the
    // size follows.
    let r = solve_snap(rect(3, 2, 100, 100), ResizeHandle::TopLeft, &vec![], SCREEN, 4);
    assert!(r.snapped);
    assert_eq!(r.position, Vec2::new(0, 0));
    assert_eq!(r.size, Vec2::new(103, 102));
    assert_eq!(r.snap_edges, SnapEdges { left: true, top: true, ..NO_EDGES });
}

#[test]
fn resize_bottom_right_snaps_to_sibling_corner() {
    let sibling = rect(400, 400, 100, 100);
    let r = solve_snap(rect(100, 100, 298, 301), ResizeHandle::BottomRight, &vec![sibling], SCREEN, 4);
    assert!(r.snapped);
    assert_eq!(r.position, Vec2::new(100, 100));
    assert_eq!(r.size, Vec2::new(300, 300));
    assert_eq!(r.snap_edges, SnapEdges { right: true, bottom: true, ..NO_EDGES });
}

#[test]
fn zero_threshold_snaps_only_what_already_touches() {
    let r = solve_snap(rect(1, 100, 100, 100), ResizeHandle::DragSentinel, &vec![], SCREEN, 0);
    assert!(!r.snapped);
    let r = solve_snap(rect(0, 100, 100, 100), ResizeHandle::DragSentinel, &vec![], SCREEN, 0);
    assert!(r.snapped);
    assert_eq!(r.position, Vec2::new(0, 100));
}
