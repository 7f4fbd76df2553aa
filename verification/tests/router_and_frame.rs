use window_manager::chrome::{create_window, CHROME_ENTITIES};
use window_manager::events::{
    WindowCloseEvent, WindowCollapseEvent, WindowDragEvent, WindowFocusEvent, WindowMaximizeEvent,
    WindowMinimizeEvent,
};
use window_manager::geometry::Vec2;
use window_manager::handle::ResizeHandle;
use window_manager::layout::Visibility;
use window_manager::lifecycle::ContentPlacement;
use window_manager::manager::{update_window_content, WindowManager};
use window_manager::plugin::{FrameInput, FrameStage, GestureCursors, WindowPlugin};
use window_manager::registry::{Role, WindowRegistry};
use window_manager::router::{
    handle_window_buttons, handle_window_focus_click, handle_window_interactions, Interaction,
    InteractionChange,
};

const SCREEN: Vec2 = Vec2 { x: 800, y: 600 };

fn setup() -> (WindowRegistry, WindowManager, usize, usize) {
    let mut registry = WindowRegistry::new();
    let mut manager = WindowManager::default();
    let a = create_window(&mut registry, &mut manager, "A", Vec2::new(400, 300), Vec2::new(100, 100));
    let b = create_window(&mut registry, &mut manager, "B", Vec2::new(200, 200), Vec2::new(0, 0));
    (registry, manager, a, b)
}

fn find(registry: &WindowRegistry, window: usize, pred: &dyn Fn(&Role) -> bool) -> usize {
    (window..window + CHROME_ENTITIES).find(|&e| pred(&registry.entities[e].role)).unwrap()
}

fn press(entity: usize) -> InteractionChange {
    InteractionChange { entity, previous: Interaction::Hovered, current: Interaction::Pressed }
}

fn release(entity: usize) -> InteractionChange {
    InteractionChange { entity, previous: Interaction::Pressed, current: Interaction::Hovered }
}

fn hover(entity: usize) -> InteractionChange {
    InteractionChange { entity, previous: Interaction::Idle, current: Interaction::Hovered }
}

fn frame(changes: Vec<InteractionChange>, just_pressed: bool, pressed: bool, cursor: (i32, i32)) -> FrameInput {
    FrameInput {
        changes,
        just_pressed,
        pressed,
        screen: Some(SCREEN),
        cursor: Some(Vec2::new(cursor.0, cursor.1)),
    }
}

#[test]
fn stages_run_in_the_documented_order() {
    let stages = WindowPlugin.build();
    assert_eq!(
        stages,
        vec![
            FrameStage::FocusClicks,
            FrameStage::ResizeInteractions,
            FrameStage::TitleBarInteractions,
            FrameStage::Resize,
            FrameStage::Drag,
            FrameStage::HandlePositions,
            FrameStage::Focus,
            FrameStage::Buttons,
            FrameStage::Collapse,
            FrameStage::Maximize,
            FrameStage::Minimize,
            FrameStage::ZOrder,
            FrameStage::Close,
            FrameStage::ContentFlush,
            FrameStage::MinimumSizes,
        ]
    );
}

#[test]
fn press_on_a_window_emits_focus() {
    let (registry, _, a, b) = setup();
    let bar = find(&registry, a, &|r| matches!(r, Role::TitleBar(_)));
    let events = handle_window_focus_click(&registry, &vec![press(a), hover(b), press(bar)], true);
    assert_eq!(events, vec![WindowFocusEvent { window_entity: a }]);
    let events = handle_window_focus_click(&registry, &vec![press(a)], false);
    assert!(events.is_empty());
}

#[test]
fn press_on_a_title_bar_emits_focus_then_drag_start() {
    let (mut registry, manager, a, b) = setup();
    let bar = find(&registry, b, &|r| matches!(r, Role::TitleBar(_)));
    let (focus, drags) =
        handle_window_interactions(&mut registry, &manager, &vec![hover(a), press(bar)], true);
    assert_eq!(focus, vec![WindowFocusEvent { window_entity: b }]);
    assert_eq!(
        drags,
        vec![WindowDragEvent {
            window_entity: b,
            position: Vec2::new(0, 0),
            drag_offset: Vec2::new(0, 0),
            drag_handle: None,
        }]
    );
    assert_eq!(registry.window(b).unwrap().drag_handle, Some(ResizeHandle::DragSentinel));
    assert_eq!(registry.window(a).unwrap().drag_handle, None);
    assert_eq!(registry.window(b).unwrap().position, Vec2::new(0, 0));
}

#[test]
fn title_bar_is_ignored_while_a_resize_is_in_progress() {
    let (mut registry, mut manager, a, _) = setup();
    manager.is_resizing_window = true;
    let bar = find(&registry, a, &|r| matches!(r, Role::TitleBar(_)));
    let (focus, drags) = handle_window_interactions(&mut registry, &manager, &vec![press(bar)], true);
    assert!(focus.is_empty() && drags.is_empty());
    assert_eq!(registry.window(a).unwrap().drag_handle, None);
}

#[test]
fn release_over_a_button_emits_its_event() {
    let (registry, _, a, b) = setup();
    let close = find(&registry, a, &|r| matches!(r, Role::CloseButton(_)));
    let minimize = find(&registry, b, &|r| matches!(r, Role::MinimizeButton(_)));
    let maximize = find(&registry, a, &|r| matches!(r, Role::MaximizeButton(_)));
    let collapse = find(&registry, b, &|r| matches!(r, Role::CollapseButton(_)));
    let events = handle_window_buttons(
        &registry,
        &vec![release(close), release(minimize), release(maximize), release(collapse), release(a)],
    );
    assert_eq!(events.close, vec![WindowCloseEvent { window_entity: a }]);
    assert_eq!(events.minimize, vec![WindowMinimizeEvent { window_entity: b }]);
    assert_eq!(events.maximize, vec![WindowMaximizeEvent { window_entity: a }]);
    assert_eq!(events.collapse, vec![WindowCollapseEvent { window_entity: b }]);

    let events = handle_window_buttons(&registry, &vec![press(close), hover(minimize)]);
    assert!(events.close.is_empty() && events.minimize.is_empty());
}

#[test]
fn a_frame_routes_a_title_bar_press_into_a_drag_and_a_focus() {
    let (mut registry, mut manager, a, b) = setup();
    let mut cursors = GestureCursors { drag: None, resize: None };
    let bar = find(&registry, a, &|r| matches!(r, Role::TitleBar(_)));
    let out = WindowPlugin.run_frame(
        &mut registry,
        &mut manager,
        &mut cursors,
        &frame(vec![press(bar)], true, true, (150, 110)),
    );
    assert!(out.drag_snap.is_some());
    assert!(out.resize_snap.is_none());
    assert_eq!(manager.dragging_window_entity, Some(a));
    assert_eq!(registry.window(a).unwrap().z_index, 3);
    assert_eq!(registry.entities[a].z_index, 3);
    assert_eq!(manager.next_z_index, 4);
    assert_eq!(cursors.drag, Some(Vec2::new(150, 110)));

    WindowPlugin.run_frame(&mut registry, &mut manager, &mut cursors, &frame(vec![], false, true, (170, 160)));
    assert_eq!(registry.window(a).unwrap().position, Vec2::new(120, 150));
    assert_eq!(registry.window(b).unwrap().position, Vec2::new(0, 0));

    WindowPlugin.run_frame(&mut registry, &mut manager, &mut cursors, &frame(vec![], false, false, (170, 160)));
    assert_eq!(manager.dragging_window_entity, None);
    assert_eq!(registry.window(a).unwrap().drag_handle, None);
    assert_eq!(cursors, GestureCursors { drag: None, resize: None });
}

#[test]
fn a_frame_resizes_and_moves_the_handles_along() {
    let (mut registry, mut manager, a, _) = setup();
    let mut cursors = GestureCursors { drag: None, resize: None };
    let grip = find(&registry, a, &|r| {
        matches!(r, Role::ResizeHandle(h, _) if h.handle_type == ResizeHandle::BottomRight)
    });
    WindowPlugin.run_frame(
        &mut registry,
        &mut manager,
        &mut cursors,
        &frame(vec![press(grip)], true, true, (500, 400)),
    );
    assert!(manager.is_resizing_window);
    let out = WindowPlugin.run_frame(
        &mut registry,
        &mut manager,
        &mut cursors,
        &frame(vec![], false, true, (540, 430)),
    );
    assert!(out.resize_snap.is_some());
    assert_eq!(registry.window(a).unwrap().size, Vec2::new(440, 330));
    assert_eq!(
        registry.entities[grip].node,
        window_manager::chrome::resize_handle_node(ResizeHandle::BottomRight, Vec2::new(440, 330))
    );
}

#[test]
fn a_frame_closes_a_window_and_flushes_content() {
    let (mut registry, mut manager, a, b) = setup();
    let mut cursors = GestureCursors { drag: None, resize: None };
    update_window_content(&mut manager, b, 5);
    let close = find(&registry, a, &|r| matches!(r, Role::CloseButton(_)));
    let out = WindowPlugin.run_frame(
        &mut registry,
        &mut manager,
        &mut cursors,
        &frame(vec![release(close)], false, false, (10, 10)),
    );
    assert!(!registry.contains_window(a));
    assert!(registry.contains_window(b));
    let area = find(&registry, b, &|r| matches!(r, Role::ContentArea(_, _)));
    assert_eq!(out.placements, vec![ContentPlacement { content_area: area, builder: 5 }]);
    assert!(manager.pending_content_updates.is_empty());
}

#[test]
fn collapse_in_a_frame_survives_minimum_size_enforcement() {
    let (mut registry, mut manager, a, _) = setup();
    let mut cursors = GestureCursors { drag: None, resize: None };
    let collapse = find(&registry, a, &|r| matches!(r, Role::CollapseButton(_)));
    WindowPlugin.run_frame(
        &mut registry,
        &mut manager,
        &mut cursors,
        &frame(vec![release(collapse)], false, false, (10, 10)),
    );
    let w = registry.window(a).unwrap();
    assert!(w.is_collapsed);
    assert_eq!(w.uncollapsed_size, Vec2::new(400, 300));
    // Enforcement runs last but leaves a collapsed window at the height
    // of its title bar.
    assert_eq!(w.size, Vec2::new(400, 30));
    let area = find(&registry, a, &|r| matches!(r, Role::ContentArea(_, _)));
    assert_eq!(registry.entities[area].visibility, Visibility::Hidden);
}

#[test]
fn a_frame_without_screen_still_routes_and_focuses() {
    let (mut registry, mut manager, a, _) = setup();
    let mut cursors = GestureCursors { drag: None, resize: None };
    let maximize = find(&registry, a, &|r| matches!(r, Role::MaximizeButton(_)));
    let input = FrameInput {
        changes: vec![press(a), release(maximize)],
        just_pressed: true,
        pressed: true,
        screen: None,
        cursor: None,
    };
    WindowPlugin.run_frame(&mut registry, &mut manager, &mut cursors, &input);
    assert_eq!(registry.window(a).unwrap().z_index, 3);
    assert!(!registry.window(a).unwrap().is_maximized);
}

#[test]
fn press_on_a_handle_of_a_closed_window_changes_nothing() {
    let (mut registry, mut manager, a, _) = setup();
    let grip = find(&registry, a, &|r| matches!(r, Role::ResizeHandle(_, _)));
    // Only the window's root is gone; its handle still answers.
    registry.entities[a].alive = false;
    let (focus, starts) = window_manager::router::handle_resize_interactions(
        &mut registry,
        &mut manager,
        &vec![press(grip)],
        true,
        Some(window_manager::gesture::Pointer { cursor: Vec2::new(5, 5), screen: SCREEN }),
    );
    assert!(focus.is_empty() && starts.is_empty());
    assert!(!manager.is_resizing_window);
}

#[test]
fn a_frame_never_leaves_a_window_in_two_states() {
    let (mut registry, mut manager, a, _) = setup();
    let mut cursors = GestureCursors { drag: None, resize: None };
    let collapse = find(&registry, a, &|r| matches!(r, Role::CollapseButton(_)));
    let maximize = find(&registry, a, &|r| matches!(r, Role::MaximizeButton(_)));
    let minimize = find(&registry, a, &|r| matches!(r, Role::MinimizeButton(_)));
    let buttons = [collapse, maximize, minimize];
    for code in 0..27 {
        let mut rest = code;
        for _ in 0..3 {
            // All three buttons are released in one frame, in an order
            // that changes with every round.
            let changes = vec![
                release(buttons[rest % 3]),
                release(buttons[(rest + 1) % 3]),
                release(buttons[(rest + 2) % 3]),
            ];
            rest /= 3;
            WindowPlugin.run_frame(
                &mut registry,
                &mut manager,
                &mut cursors,
                &frame(changes, false, false, (10, 10)),
            );
            let w = registry.window(a).unwrap();
            let states =
                [w.is_collapsed, w.is_maximized, w.is_minimized].iter().filter(|f| **f).count();
            assert!(states <= 1, "round {code}");
        }
    }
}
