use window_manager::geometry::Vec2;
use window_manager::metrics::{TASKBAR_CHIP_HEIGHT, TASKBAR_CHIP_WIDTH, TASKBAR_MARGIN};
use window_manager::taskbar::calculate_minimize_position;
use window_manager::window::{Window, WindowState};

fn sample() -> Window {
    Window::new("Sample", Vec2::new(400, 300), Vec2::new(100, 100), 7)
}

#[test]
fn default_window_has_the_documented_fields() {
    let w = Window::default();
    assert_eq!(w.title, "Window");
    assert_eq!(w.size, Vec2::new(800, 600));
    assert_eq!(w.position, Vec2::new(100, 100));
    assert_eq!(w.z_index, 0);
    assert_eq!(w.state, WindowState::Normal);
    assert_eq!(w.drag_handle, None);
    assert!(!w.is_collapsed && !w.is_maximized && !w.is_minimized);
    assert_eq!(w.uncollapsed_size, Vec2::new(800, 600));
    assert_eq!(w.pre_maximized_position, Vec2::new(100, 100));
    assert_eq!(w.minimize_slot, None);
}

#[test]
fn new_window_keeps_title_and_geometry() {
    let w = sample();
    assert_eq!(w.title, "Sample");
    assert_eq!(w.size, Vec2::new(400, 300));
    assert_eq!(w.position, Vec2::new(100, 100));
    assert_eq!(w.z_index, 7);
    assert_eq!(w.uncollapsed_size, Vec2::new(800, 600));
}

#[test]
fn collapse_then_uncollapse_restores_size_exactly() {
    let mut w = sample();
    w.toggle_collapse();
    assert!(w.is_collapsed);
    assert_eq!(w.size, Vec2::new(400, 30));
    assert_eq!(w.uncollapsed_size, Vec2::new(400, 300));
    assert_eq!(w.position, Vec2::new(100, 100));
    w.toggle_collapse();
    assert!(!w.is_collapsed);
    assert_eq!(w.size, Vec2::new(400, 300));
    assert_eq!(w.position, Vec2::new(100, 100));
}

#[test]
fn maximize_then_restore_restores_size_and_position_exactly() {
    let mut w = sample();
    w.toggle_maximize(Vec2::new(1024, 768));
    assert!(w.is_maximized);
    assert_eq!(w.state, WindowState::Maximized);
    assert_eq!(w.position, Vec2::new(0, 0));
    assert_eq!(w.size, Vec2::new(1024, 768));
    w.toggle_maximize(Vec2::new(640, 480));
    assert!(!w.is_maximized);
    assert_eq!(w.state, WindowState::Normal);
    assert_eq!(w.size, Vec2::new(400, 300));
    assert_eq!(w.position, Vec2::new(100, 100));
}

#[test]
fn maximize_uncollapses_a_collapsed_window_first() {
    let mut w = sample();
    w.toggle_collapse();
    w.toggle_maximize(Vec2::new(1024, 768));
    assert!(w.is_maximized);
    assert!(!w.is_collapsed);
    assert_eq!(w.size, Vec2::new(1024, 768));
    assert_eq!(w.pre_maximized_size, Vec2::new(400, 300));
    assert_eq!(w.uncollapsed_size, Vec2::new(400, 300));
    // The restore brings back the full size, not the title bar.
    w.toggle_maximize(Vec2::new(1024, 768));
    assert!(!w.is_maximized && !w.is_collapsed);
    assert_eq!(w.size, Vec2::new(400, 300));
    assert_eq!(w.position, Vec2::new(100, 100));
}

#[test]
fn maximized_window_ignores_collapse() {
    let mut w = sample();
    w.toggle_maximize(Vec2::new(1024, 768));
    w.toggle_collapse();
    assert!(w.is_maximized);
    assert!(!w.is_collapsed);
    assert_eq!(w.size, Vec2::new(1024, 768));
    assert_eq!(w.uncollapsed_size, Vec2::new(800, 600));
}

#[test]
fn minimized_window_ignores_collapse_and_maximize() {
    let mut w = sample();
    w.toggle_minimize(1, Vec2::new(1024, 768), 9);
    let chip = (w.position, w.size);
    w.toggle_collapse();
    assert!(w.is_minimized && !w.is_collapsed);
    assert_eq!((w.position, w.size), chip);
    w.toggle_maximize(Vec2::new(1024, 768));
    assert!(w.is_minimized && !w.is_maximized);
    assert_eq!((w.position, w.size), chip);
    assert_eq!(w.state, WindowState::Minimized);
    assert_eq!(w.pre_maximized_size, Vec2::new(800, 600));
    assert_eq!(w.minimize_slot, Some(1));
}

#[test]
fn never_more_than_one_state_at_a_time() {
    let screen = Vec2::new(1024, 768);
    let count = |w: &Window| {
        [w.is_collapsed, w.is_maximized, w.is_minimized].iter().filter(|f| **f).count()
    };
    // Every sequence of four requests out of the three kinds.
    for code in 0..81 {
        let mut w = sample();
        let mut rest = code;
        for _ in 0..4 {
            match rest % 3 {
                0 => w.toggle_collapse(),
                1 => w.toggle_maximize(screen),
                _ => w.toggle_minimize(0, screen, 5),
            }
            rest /= 3;
            assert!(count(&w) <= 1, "sequence {code}");
        }
    }
}

#[test]
fn minimize_then_restore_restores_size_and_position_exactly() {
    let mut w = sample();
    w.toggle_minimize(2, Vec2::new(1024, 768), 9);
    assert!(w.is_minimized);
    assert_eq!(w.state, WindowState::Minimized);
    assert_eq!(w.minimize_slot, Some(2));
    assert_eq!(w.size, Vec2::new(200, 30));
    assert_eq!(w.position, Vec2::new(5 + 2 * 205, 768 - 35));
    assert_eq!(w.z_index, 7);
    w.toggle_minimize(0, Vec2::new(1024, 768), 9);
    assert!(!w.is_minimized);
    assert_eq!(w.state, WindowState::Normal);
    assert_eq!(w.minimize_slot, None);
    assert_eq!(w.size, Vec2::new(400, 300));
    assert_eq!(w.position, Vec2::new(100, 100));
    assert_eq!(w.z_index, 9);
}

#[test]
fn minimize_unwinds_maximize() {
    let mut w = sample();
    w.toggle_maximize(Vec2::new(1024, 768));
    w.toggle_minimize(0, Vec2::new(1024, 768), 3);
    assert!(w.is_minimized);
    assert!(!w.is_maximized);
    assert!(!w.is_collapsed);
    assert_eq!(w.pre_minimized_size, Vec2::new(1024, 768));
    assert_eq!(w.pre_minimized_position, Vec2::new(0, 0));
    assert_eq!(w.size, Vec2::new(200, 30));
}

#[test]
fn minimize_unwinds_collapse() {
    let mut w = sample();
    w.toggle_collapse();
    w.toggle_minimize(0, Vec2::new(1024, 768), 3);
    assert!(w.is_minimized && !w.is_collapsed && !w.is_maximized);
    assert_eq!(w.pre_minimized_size, Vec2::new(400, 30));
    assert_eq!(w.size, Vec2::new(200, 30));
}

#[test]
fn maximized_and_minimized_never_both_after_minimize() {
    let mut w = sample();
    w.toggle_maximize(Vec2::new(1024, 768));
    w.toggle_minimize(0, Vec2::new(1024, 768), 3);
    assert!(!(w.is_maximized && w.is_minimized));
    w.toggle_minimize(0, Vec2::new(1024, 768), 4);
    assert!(!(w.is_maximized && w.is_minimized));
}

#[test]
fn five_slots_wrap_after_three_chips_per_row() {
    let (width, height) = (640, 480);
    let step_x = TASKBAR_CHIP_WIDTH + TASKBAR_MARGIN;
    let step_y = TASKBAR_CHIP_HEIGHT + TASKBAR_MARGIN;
    let row0 = height - TASKBAR_CHIP_HEIGHT - TASKBAR_MARGIN;
    let expected = [
        Vec2::new(TASKBAR_MARGIN, row0),
        Vec2::new(TASKBAR_MARGIN + step_x, row0),
        Vec2::new(TASKBAR_MARGIN + 2 * step_x, row0),
        Vec2::new(TASKBAR_MARGIN, row0 - step_y),
        Vec2::new(TASKBAR_MARGIN + step_x, row0 - step_y),
    ];
    for slot in 0..5 {
        assert_eq!(calculate_minimize_position(slot, width, height), Some(expected[slot]));
    }
    assert_eq!(expected[0], Vec2::new(5, 445));
    assert_eq!(expected[4], Vec2::new(210, 410));
}

#[test]
fn chips_per_row_follow_the_width() {
    // 209 px: not even one chip with its margins; one per row all the same.
    assert_eq!(calculate_minimize_position(1, 209, 480), Some(Vec2::new(5, 410)));
    // 210 px: exactly one.
    assert_eq!(calculate_minimize_position(3, 210, 480), Some(Vec2::new(5, 480 - 35 - 3 * 35)));
    // 414 px: still one; 415 px: two.
    assert_eq!(calculate_minimize_position(1, 414, 480), Some(Vec2::new(5, 410)));
    assert_eq!(calculate_minimize_position(1, 415, 480), Some(Vec2::new(210, 445)));
}

#[test]
fn every_screen_has_a_taskbar() {
    assert_eq!(calculate_minimize_position(0, 100, 600), Some(Vec2::new(5, 565)));
    assert_eq!(calculate_minimize_position(2, 100, 600), Some(Vec2::new(5, 495)));
    assert_eq!(calculate_minimize_position(0, 0, 0), Some(Vec2::new(5, -35)));
    assert_eq!(calculate_minimize_position(4, -50, 20), Some(Vec2::new(5, 20 - 35 - 4 * 35)));
    assert_eq!(calculate_minimize_position(0, i32::MIN, 100), Some(Vec2::new(5, 65)));
}

#[test]
fn a_chip_outside_the_pixel_range_has_no_position() {
    let limit = 16_777_216;
    // Row 479_349 is the last whose top edge is still within range on a
    // screen of height 0.
    assert_eq!(
        calculate_minimize_position(479_348, 100, 0),
        Some(Vec2::new(5, -35 - 479_348 * 35))
    );
    assert!(-35 - 479_348 * 35 >= -limit);
    assert_eq!(calculate_minimize_position(479_349, 100, 0), None);
    assert_eq!(calculate_minimize_position(usize::MAX, 100, 600), None);
    assert_eq!(calculate_minimize_position(usize::MAX, i32::MAX, i32::MAX), None);
    // A screen taller than the range puts even slot 0 out of reach.
    assert_eq!(calculate_minimize_position(0, 800, i32::MAX), None);
    // So does a column beyond the range on a very wide screen.
    assert_eq!(calculate_minimize_position(100_000, i32::MAX, 600), None);
    assert_eq!(
        calculate_minimize_position(1_000, i32::MAX, 600),
        Some(Vec2::new(5 + 1_000 * 205, 565))
    );
}
