use window_manager::chrome::{
    create_window, resize_handle_node, update_resize_handle_positions, CHROME_ENTITIES,
};
use window_manager::geometry::Vec2;
use window_manager::handle::ResizeHandle;
use window_manager::layout::{FlexDirection, Node, Val, Visibility};
use window_manager::lifecycle::{
    close_window, handle_window_close, process_pending_content_updates, ContentPlacement,
};
use window_manager::manager::{update_window_content, WindowManager};
use window_manager::registry::{Role, WindowRegistry};
use window_manager::events::WindowCloseEvent;
use window_manager::output::{window_layouts, WindowLayout};
use window_manager::transitions::{collapse_window, maximize_window};
use window_manager::visibility::{hide_resize_handles, hide_window_children};
use window_manager::zorder::update_window_z_order;

fn one_window() -> (WindowRegistry, WindowManager, usize) {
    let mut registry = WindowRegistry::new();
    let mut manager = WindowManager::default();
    let id = create_window(
        &mut registry,
        &mut manager,
        "Test Window",
        Vec2::new(400, 300),
        Vec2::new(100, 100),
    );
    (registry, manager, id)
}

fn handles_of(registry: &WindowRegistry, window: usize) -> Vec<(usize, ResizeHandle)> {
    let mut found = Vec::new();
    for (e, entity) in registry.entities.iter().enumerate() {
        if let Role::ResizeHandle(handle, owner) = &entity.role {
            if owner.window_entity == window {
                found.push((e, handle.handle_type));
            }
        }
    }
    found
}

#[test]
fn fresh_manager_starts_at_z_one_with_threshold_four() {
    let m = WindowManager::default();
    assert_eq!(m.next_z_index, 1);
    assert_eq!(m.snap_threshold, 4);
    assert!(!m.is_dragging_window && !m.is_resizing_window);
    assert_eq!(m.dragging_window_entity, None);
    assert!(m.pending_content_updates.is_empty());
}

#[test]
fn create_window_spawns_all_chrome() {
    let (registry, manager, id) = one_window();
    assert_eq!(id, 0);
    assert_eq!(registry.entities.len(), CHROME_ENTITIES);
    assert_eq!(manager.next_z_index, 2);
    let w = registry.window(id).expect("window exists");
    assert_eq!(w.title, "Test Window");
    assert_eq!(w.size, Vec2::new(400, 300));
    assert_eq!(w.position, Vec2::new(100, 100));
    assert_eq!(w.z_index, 1);
    assert_eq!(registry.entities[id].z_index, 1);
    assert_eq!(registry.entities[id].parent, None);
    assert_eq!(
        registry.entities[id].node,
        Node {
            left: Val::Px(100),
            top: Val::Px(100),
            width: Val::Px(400),
            height: Val::Px(300),
            min_width: Val::Auto,
            flex_direction: FlexDirection::Column,
        }
    );
    let count = |pred: &dyn Fn(&Role) -> bool| {
        registry.entities.iter().filter(|e| pred(&e.role)).count()
    };
    assert_eq!(count(&|r| matches!(r, Role::Window(_))), 1);
    assert_eq!(count(&|r| matches!(r, Role::TitleBar(_))), 1);
    assert_eq!(count(&|r| matches!(r, Role::CollapseButton(_))), 1);
    assert_eq!(count(&|r| matches!(r, Role::MinimizeButton(_))), 1);
    assert_eq!(count(&|r| matches!(r, Role::MaximizeButton(_))), 1);
    assert_eq!(count(&|r| matches!(r, Role::CloseButton(_))), 1);
    assert_eq!(count(&|r| matches!(r, Role::ContentArea(_, _))), 1);
    assert_eq!(count(&|r| matches!(r, Role::ResizeHandle(_, _))), 8);
    assert!(registry.entities.iter().all(|e| e.alive));
    assert!(registry.entities.iter().all(|e| e.visibility == Visibility::Inherited));
    for (e, entity) in registry.entities.iter().enumerate() {
        if let Some(p) = entity.parent {
            assert!(p < e);
        }
    }
}

#[test]
fn second_window_takes_the_next_names_and_z_index() {
    let (mut registry, mut manager, first) = one_window();
    let second = create_window(
        &mut registry,
        &mut manager,
        "Another Window",
        Vec2::new(250, 150),
        Vec2::new(200, 200),
    );
    assert_eq!(first, 0);
    assert_eq!(second, CHROME_ENTITIES);
    assert_eq!(registry.window(second).unwrap().z_index, 2);
    assert_eq!(manager.next_z_index, 3);
    assert!(registry.contains_window(first));
    assert!(registry.contains_window(second));
    assert!(!registry.contains_window(1));
    assert!(!registry.contains_window(1000));
}

#[test]
fn handles_sit_on_the_corners_and_edges() {
    let (registry, _, id) = one_window();
    let handles = handles_of(&registry, id);
    assert_eq!(handles.len(), 8);
    for (e, kind) in handles {
        let n = registry.entities[e].node;
        let expected = match kind {
            ResizeHandle::TopLeft => (0, 0, 8, 8),
            ResizeHandle::TopRight => (392, 0, 8, 8),
            ResizeHandle::BottomLeft => (0, 292, 8, 8),
            ResizeHandle::BottomRight => (392, 292, 8, 8),
            ResizeHandle::Top => (8, 0, 384, 8),
            ResizeHandle::Bottom => (8, 292, 384, 8),
            ResizeHandle::Left => (0, 8, 8, 284),
            ResizeHandle::Right => (392, 8, 8, 284),
            ResizeHandle::DragSentinel => unreachable!(),
        };
        assert_eq!(
            (n.left, n.top, n.width, n.height),
            (
                Val::Px(expected.0),
                Val::Px(expected.1),
                Val::Px(expected.2),
                Val::Px(expected.3)
            )
        );
        assert_eq!(n, resize_handle_node(kind, Vec2::new(400, 300)));
    }
}

#[test]
fn handles_follow_the_window_size() {
    let (mut registry, _, id) = one_window();
    if let Role::Window(w) = &mut registry.entities[id].role {
        w.size = Vec2::new(500, 200);
    }
    update_resize_handle_positions(&mut registry);
    for (e, kind) in handles_of(&registry, id) {
        assert_eq!(registry.entities[e].node, resize_handle_node(kind, Vec2::new(500, 200)));
    }
}

#[test]
fn hide_window_children_hides_content_and_handles_only() {
    let (mut registry, _, id) = one_window();
    hide_window_children(&mut registry, id, false);
    for entity in registry.entities.iter() {
        let part = matches!(entity.role, Role::ContentArea(_, _) | Role::ResizeHandle(_, _));
        let expected = if part { Visibility::Hidden } else { Visibility::Inherited };
        assert_eq!(entity.visibility, expected);
    }
    hide_window_children(&mut registry, id, true);
    assert!(registry.entities.iter().all(|e| e.visibility == Visibility::Inherited));
}

#[test]
fn hide_resize_handles_leaves_content_alone() {
    let (mut registry, _, id) = one_window();
    hide_resize_handles(&mut registry, id, false);
    for entity in registry.entities.iter() {
        let handle = matches!(entity.role, Role::ResizeHandle(_, _));
        let expected = if handle { Visibility::Hidden } else { Visibility::Inherited };
        assert_eq!(entity.visibility, expected);
    }
}

#[test]
fn hiding_one_window_does_not_touch_another() {
    let (mut registry, mut manager, first) = one_window();
    let second =
        create_window(&mut registry, &mut manager, "B", Vec2::new(200, 200), Vec2::new(0, 0));
    hide_window_children(&mut registry, second, false);
    for e in first..second {
        assert_eq!(registry.entities[e].visibility, Visibility::Inherited);
    }
    assert!(registry.entities[second..].iter().any(|e| e.visibility == Visibility::Hidden));
}

#[test]
fn close_despawns_window_and_chrome_and_ends_its_gesture() {
    let (mut registry, mut manager, first) = one_window();
    let second =
        create_window(&mut registry, &mut manager, "B", Vec2::new(200, 200), Vec2::new(0, 0));
    manager.dragging_window_entity = Some(first);
    manager.is_dragging_window = true;
    close_window(&mut registry, &mut manager, first);
    assert!(!registry.contains_window(first));
    assert!(registry.window(first).is_none());
    for e in first..second {
        assert!(!registry.entities[e].alive);
    }
    for e in second..registry.entities.len() {
        assert!(registry.entities[e].alive);
    }
    assert_eq!(manager.dragging_window_entity, None);
    assert!(!manager.is_dragging_window);
}

#[test]
fn close_of_a_stale_id_changes_nothing() {
    let (mut registry, mut manager, first) = one_window();
    manager.dragging_window_entity = Some(first);
    manager.is_dragging_window = true;
    handle_window_close(
        &mut registry,
        &mut manager,
        &vec![
            WindowCloseEvent { window_entity: 3 },
            WindowCloseEvent { window_entity: 999 },
        ],
    );
    assert!(registry.entities.iter().all(|e| e.alive));
    assert_eq!(manager.dragging_window_entity, Some(first));
    assert!(manager.is_dragging_window);
    // Closing twice is a no-op the second time.
    close_window(&mut registry, &mut manager, first);
    close_window(&mut registry, &mut manager, first);
    assert!(registry.entities.iter().all(|e| !e.alive));
}

#[test]
fn content_updates_wait_for_the_flush() {
    let (mut registry, mut manager, id) = one_window();
    update_window_content(&mut manager, id, 77);
    update_window_content(&mut manager, 999, 78);
    assert_eq!(manager.pending_content_updates.len(), 2);
    assert!(registry.entities.iter().all(|e| e.alive));

    let placements = process_pending_content_updates(&mut registry, &mut manager);
    let area = registry
        .entities
        .iter()
        .position(|e| matches!(e.role, Role::ContentArea(_, _)))
        .unwrap();
    assert_eq!(placements, vec![ContentPlacement { content_area: area, builder: 77 }]);
    assert!(manager.pending_content_updates.is_empty());
    // The placeholder below the content area is gone, the area stays.
    assert!(registry.entities[area].alive);
    for (e, entity) in registry.entities.iter().enumerate() {
        assert_eq!(entity.alive, entity.parent != Some(area), "entity {e}");
    }
}

#[test]
fn flush_replaces_content_that_the_host_attached() {
    let (mut registry, mut manager, id) = one_window();
    update_window_content(&mut manager, id, 1);
    let first = process_pending_content_updates(&mut registry, &mut manager);
    let area = first[0].content_area;
    let label = registry.spawn(Some(area), Role::Plain, Node::default());
    let nested = registry.spawn(Some(label), Role::Plain, Node::default());
    update_window_content(&mut manager, id, 2);
    let second = process_pending_content_updates(&mut registry, &mut manager);
    assert_eq!(second, vec![ContentPlacement { content_area: area, builder: 2 }]);
    assert!(!registry.entities[label].alive);
    assert!(!registry.entities[nested].alive);
    assert!(registry.entities[area].alive);
    assert!(registry.contains_window(id));
}

#[test]
fn layouts_report_every_live_window() {
    let (mut registry, mut manager, first) = one_window();
    let second =
        create_window(&mut registry, &mut manager, "B", Vec2::new(200, 200), Vec2::new(10, 20));
    let third =
        create_window(&mut registry, &mut manager, "C", Vec2::new(220, 210), Vec2::new(30, 40));
    collapse_window(&mut registry, first);
    maximize_window(&mut registry, second, Vec2::new(800, 600));
    close_window(&mut registry, &mut manager, third);
    update_window_z_order(&mut registry);
    assert_eq!(
        window_layouts(&registry),
        vec![
            WindowLayout {
                window_entity: first,
                position: Vec2::new(100, 100),
                size: Vec2::new(400, 30),
                render_order: 1,
                content_visible: false,
                handles_visible: false,
            },
            WindowLayout {
                window_entity: second,
                position: Vec2::new(0, 0),
                size: Vec2::new(800, 600),
                render_order: 2,
                content_visible: true,
                handles_visible: false,
            },
        ]
    );
}

#[test]
fn arena_is_well_formed_until_a_parent_points_forward() {
    let (mut registry, _, _) = one_window();
    assert!(registry.check_wf());
    assert!(WindowRegistry::new().check_wf());
    registry.entities[3].parent = Some(7);
    assert!(!registry.check_wf());
    registry.entities[3].parent = Some(3);
    assert!(!registry.check_wf());
    registry.entities[3].parent = None;
    assert!(registry.check_wf());
}
