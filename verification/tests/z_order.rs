use window_manager::chrome::create_window;
use window_manager::events::WindowFocusEvent;
use window_manager::geometry::Vec2;
use window_manager::manager::WindowManager;
use window_manager::registry::WindowRegistry;
use window_manager::zorder::{focus_window, handle_window_focus, update_window_z_order};

fn two_windows() -> (WindowRegistry, WindowManager, usize, usize) {
    let mut registry = WindowRegistry::new();
    let mut manager = WindowManager::default();
    let a = create_window(&mut registry, &mut manager, "A", Vec2::new(300, 200), Vec2::new(0, 0));
    let b = create_window(&mut registry, &mut manager, "B", Vec2::new(300, 200), Vec2::new(50, 50));
    (registry, manager, a, b)
}

#[test]
fn focus_twice_on_topmost_window_increments_twice() {
    let (mut registry, mut manager, _, b) = two_windows();
    assert_eq!(manager.next_z_index, 3);
    assert_eq!(registry.window(b).unwrap().z_index, 2);
    focus_window(&mut registry, &mut manager, b);
    assert_eq!(registry.window(b).unwrap().z_index, 3);
    assert_eq!(manager.next_z_index, 4);
    focus_window(&mut registry, &mut manager, b);
    assert_eq!(registry.window(b).unwrap().z_index, 4);
    assert_eq!(manager.next_z_index, 5);
}

#[test]
fn focus_events_are_taken_in_order() {
    let (mut registry, mut manager, a, b) = two_windows();
    handle_window_focus(
        &mut registry,
        &mut manager,
        &vec![
            WindowFocusEvent { window_entity: a },
            WindowFocusEvent { window_entity: b },
            WindowFocusEvent { window_entity: a },
        ],
    );
    assert_eq!(registry.window(a).unwrap().z_index, 5);
    assert_eq!(registry.window(b).unwrap().z_index, 4);
    assert_eq!(manager.next_z_index, 6);
}

#[test]
fn focus_on_a_stale_id_is_a_no_op() {
    let (mut registry, mut manager, a, b) = two_windows();
    focus_window(&mut registry, &mut manager, 1);
    focus_window(&mut registry, &mut manager, 4242);
    assert_eq!(manager.next_z_index, 3);
    assert_eq!(registry.window(a).unwrap().z_index, 1);
    assert_eq!(registry.window(b).unwrap().z_index, 2);
}

#[test]
fn focus_stops_when_the_counter_is_exhausted() {
    let (mut registry, mut manager, a, _) = two_windows();
    manager.next_z_index = i32::MAX;
    focus_window(&mut registry, &mut manager, a);
    assert_eq!(manager.next_z_index, i32::MAX);
    assert_eq!(registry.window(a).unwrap().z_index, 1);
    manager.next_z_index = i32::MAX - 1;
    focus_window(&mut registry, &mut manager, a);
    assert_eq!(manager.next_z_index, i32::MAX);
    assert_eq!(registry.window(a).unwrap().z_index, i32::MAX - 1);
}

#[test]
fn z_order_sync_copies_window_z_to_the_root_node() {
    let (mut registry, mut manager, a, b) = two_windows();
    focus_window(&mut registry, &mut manager, a);
    assert_eq!(registry.entities[a].z_index, 1);
    update_window_z_order(&mut registry);
    assert_eq!(registry.entities[a].z_index, 3);
    assert_eq!(registry.entities[b].z_index, 2);
    assert_eq!(registry.entities[a + 1].z_index, 0);
}
