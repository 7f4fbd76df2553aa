//! Window chrome: what a new window is made of, and where its resize
//! handles sit as it changes size.

use vstd::prelude::*;
use crate::geometry::Vec2;
use crate::handle::ResizeHandle;
use crate::layout::{FlexDirection, Node, Val, Visibility};
use crate::manager::WindowManager;
use crate::metrics::{BUTTON_SIZE, RESIZE_HANDLE_SIZE, TITLE_BAR_HEIGHT};
use crate::registry::{
    is_window, window_of, ResizeHandleRef, Role, UiEntity, WindowCloseButton,
    WindowCollapseButton, WindowContent, WindowContentArea, WindowMaximizeButton,
    WindowMinimizeButton, WindowRegistry, WindowResizeHandle, WindowTitleBar,
};

use crate::window::Window;

verus! {

/// How many entities a window is made of: the window itself, its title
/// bar with the title and four labelled buttons, its content area with a
/// placeholder, and eight resize handles.
pub const CHROME_ENTITIES: usize = 23;

/// Place and size of a resize handle inside a window of the given size.
pub open spec fn handle_node(handle: ResizeHandle, size: Vec2) -> Node {
    let s = RESIZE_HANDLE_SIZE as int;
    match handle {
        ResizeHandle::TopLeft => Node::placed(0, 0, s, s),
        ResizeHandle::TopRight => Node::placed(size.x - s, 0, s, s),
        ResizeHandle::BottomLeft => Node::placed(0, size.y - s, s, s),
        ResizeHandle::BottomRight => Node::placed(size.x - s, size.y - s, s, s),
        ResizeHandle::Top => Node::placed(s, 0, size.x - 2 * s, s),
        ResizeHandle::Bottom => Node::placed(s, size.y - s, size.x - 2 * s, s),
        ResizeHandle::Left => Node::placed(0, s, s, size.y - 2 * s),
        ResizeHandle::Right => Node::placed(size.x - s, s, s, size.y - 2 * s),
        ResizeHandle::DragSentinel => Node::plain(),
    }
}

/// The node of a window's root.
pub open spec fn window_node(position: Vec2, size: Vec2) -> Node {
    Node {
        flex_direction: FlexDirection::Column,
        ..Node::placed(position.x as int, position.y as int, size.x as int, size.y as int)
    }
}

/// The node of a title bar.
pub open spec fn title_bar_node() -> Node {
    Node { width: Val::Percent(100), height: Val::Px(TITLE_BAR_HEIGHT), ..Node::plain() }
}

/// The node of the container that holds the title text.
pub open spec fn title_container_node() -> Node {
    Node { min_width: Val::Px(0), ..Node::plain() }
}

/// The node of a title-bar button.
pub open spec fn button_node() -> Node {
    Node { width: Val::Px(BUTTON_SIZE), height: Val::Px(BUTTON_SIZE), ..Node::plain() }
}

/// The node of a content area.
pub open spec fn content_area_node() -> Node {
    Node {
        width: Val::Percent(100),
        height: Val::Percent(100),
        flex_direction: FlexDirection::Column,
        ..Node::plain()
    }
}

/// A live, visible entity.
pub open spec fn chrome_entity(
    parent: Option<usize>,
    role: Role,
    node: Node,
    z_index: i32,
) -> UiEntity {
    UiEntity { alive: true, parent, role, node, visibility: Visibility::Inherited, z_index }
}

/// A resize handle of window `base`.
pub open spec fn handle_entity(base: usize, handle: ResizeHandle, size: Vec2) -> UiEntity {
    chrome_entity(
        Some(base),
        Role::ResizeHandle(
            WindowResizeHandle { handle_type: handle },
            ResizeHandleRef { window_entity: base },
        ),
        handle_node(handle, size),
        0,
    )
}

/// The entities of a new window whose root gets the name `base`, in the
/// order of their creation.
pub open spec fn window_chrome(base: usize, w: Window) -> Seq<UiEntity> {
    let b = base as int;
    seq![
        chrome_entity(None, Role::Window(w), window_node(w.position, w.size), w.z_index),
        chrome_entity(
            Some(base),
            Role::TitleBar(WindowTitleBar { window_entity: base }),
            title_bar_node(),
            0,
        ),
        chrome_entity(Some((b + 1) as usize), Role::Plain, title_container_node(), 0),
        chrome_entity(Some((b + 2) as usize), Role::Plain, Node::plain(), 0),
        chrome_entity(Some((b + 1) as usize), Role::Plain, Node::plain(), 0),
        chrome_entity(
            Some((b + 4) as usize),
            Role::CollapseButton(WindowCollapseButton { window_entity: base }),
            button_node(),
            0,
        ),
        chrome_entity(Some((b + 5) as usize), Role::Plain, Node::plain(), 0),
        chrome_entity(
            Some((b + 4) as usize),
            Role::MinimizeButton(WindowMinimizeButton { window_entity: base }),
            button_node(),
            0,
        ),
        chrome_entity(Some((b + 7) as usize), Role::Plain, Node::plain(), 0),
        chrome_entity(
            Some((b + 4) as usize),
            Role::MaximizeButton(WindowMaximizeButton { window_entity: base }),
            button_node(),
            0,
        ),
        chrome_entity(Some((b + 9) as usize), Role::Plain, Node::plain(), 0),
        chrome_entity(
            Some((b + 4) as usize),
            Role::CloseButton(WindowCloseButton { window_entity: base }),
            button_node(),
            0,
        ),
        chrome_entity(Some((b + 11) as usize), Role::Plain, Node::plain(), 0),
        chrome_entity(
            Some(base),
            Role::ContentArea(WindowContent, WindowContentArea { window_entity: base }),
            content_area_node(),
            0,
        ),
        chrome_entity(Some((b + 13) as usize), Role::Plain, Node::plain(), 0),
        handle_entity(base, ResizeHandle::TopLeft, w.size),
        handle_entity(base, ResizeHandle::TopRight, w.size),
        handle_entity(base, ResizeHandle::BottomLeft, w.size),
        handle_entity(base, ResizeHandle::BottomRight, w.size),
        handle_entity(base, ResizeHandle::Top, w.size),
        handle_entity(base, ResizeHandle::Bottom, w.size),
        handle_entity(base, ResizeHandle::Left, w.size),
        handle_entity(base, ResizeHandle::Right, w.size),
    ]
}

/// Computes [`handle_node`].
pub fn resize_handle_node(handle: ResizeHandle, size: Vec2) -> (n: Node)
    requires
        size.in_range(),
    ensures
        n == handle_node(handle, size),
{
    let s: i32 = RESIZE_HANDLE_SIZE;
    match handle {
        ResizeHandle::TopLeft => Node::at(0, 0, s, s),
        ResizeHandle::TopRight => Node::at(size.x - s, 0, s, s),
        ResizeHandle::BottomLeft => Node::at(0, size.y - s, s, s),
        ResizeHandle::BottomRight => Node::at(size.x - s, size.y - s, s, s),
        ResizeHandle::Top => Node::at(s, 0, size.x - 2 * s, s),
        ResizeHandle::Bottom => Node::at(s, size.y - s, size.x - 2 * s, s),
        ResizeHandle::Left => Node::at(0, s, s, size.y - 2 * s),
        ResizeHandle::Right => Node::at(size.x - s, s, s, size.y - 2 * s),
        ResizeHandle::DragSentinel => Node::default(),
    }
}

fn create_resize_handle(
    registry: &mut WindowRegistry,
    window_entity: usize,
    handle_type: ResizeHandle,
    size: Vec2,
) -> (id: usize)
    requires
        old(registry).wf(),
        window_entity < old(registry).entities.len(),
        size.in_range(),
    ensures
        id == old(registry).entities.len(),
        final(registry).entities@ == old(registry).entities@.push(
            handle_entity(window_entity, handle_type, size),
        ),
        final(registry).wf(),
{
    registry.spawn(
        Some(window_entity),
        Role::ResizeHandle(
            WindowResizeHandle { handle_type },
            ResizeHandleRef { window_entity },
        ),
        resize_handle_node(handle_type, size),
    )
}

fn create_button(registry: &mut WindowRegistry, container: usize, role: Role) -> (id: usize)
    requires
        old(registry).wf(),
        container < old(registry).entities.len(),
        old(registry).entities.len() < usize::MAX,
    ensures
        id == old(registry).entities.len(),
        final(registry).entities@ == old(registry).entities@.push(
            chrome_entity(Some(container), role, button_node(), 0),
        ).push(chrome_entity(Some(id), Role::Plain, Node::plain(), 0)),
        final(registry).wf(),
{
    let mut node = Node::default();
    node.width = Val::Px(BUTTON_SIZE);
    node.height = Val::Px(BUTTON_SIZE);
    let button = registry.spawn(Some(container), role, node);
    registry.spawn(Some(button), Role::Plain, Node::default());
    button
}

/// Room is left in the arena for one more window.
pub open spec fn has_room(s: Seq<UiEntity>) -> bool {
    s.len() + CHROME_ENTITIES <= usize::MAX
}

/// Creates a window with its chrome and returns the name of its root.
///
/// The window takes the manager's next z-index, which moves on by one.
pub fn create_window(
    registry: &mut WindowRegistry,
    window_manager: &mut WindowManager,
    title: &str,
    size: Vec2,
    position: Vec2,
) -> (window_entity: usize)
    requires
        old(registry).wf(),
        has_room(old(registry).entities@),
        old(window_manager).can_raise(),
        size.in_range(),
    ensures
        window_entity == old(registry).entities.len(),
        final(registry).entities.len() == old(registry).entities.len() + CHROME_ENTITIES,
        is_window(final(registry).entities@, window_entity as int),
        window_of(final(registry).entities@, window_entity as int).title@ == title@,
        window_of(final(registry).entities@, window_entity as int) == Window::fresh(
            window_of(final(registry).entities@, window_entity as int).title,
            size,
            position,
            old(window_manager).next_z_index,
        ),
        final(registry).entities@ == old(registry).entities@ + window_chrome(
            window_entity,
            window_of(final(registry).entities@, window_entity as int),
        ),
        final(registry).wf(),
        final(window_manager).next_z_index == old(window_manager).next_z_index + 1,
        final(window_manager).snap_threshold == old(window_manager).snap_threshold,
        final(window_manager).is_dragging_window == old(window_manager).is_dragging_window,
        final(window_manager).is_resizing_window == old(window_manager).is_resizing_window,
        final(window_manager).dragging_window_entity == old(window_manager).dragging_window_entity,
        final(window_manager).pending_content_updates@ == old(
            window_manager,
        ).pending_content_updates@,
{
    let z = window_manager.next_z_index;
    let record = Window::new(title, size, position, z);
    let mut root_node = Node::at(position.x, position.y, size.x, size.y);
    root_node.flex_direction = FlexDirection::Column;
    let window_entity = registry.spawn(None, Role::Window(record), root_node);
    registry.entities[window_entity].z_index = z;
    window_manager.next_z_index = z + 1;

    let mut bar_node = Node::default();
    bar_node.width = Val::Percent(100);
    bar_node.height = Val::Px(TITLE_BAR_HEIGHT);
    let title_bar = registry.spawn(
        Some(window_entity),
        Role::TitleBar(WindowTitleBar { window_entity }),
        bar_node,
    );
    let mut container_node = Node::default();
    container_node.min_width = Val::Px(0);
    let title_container = registry.spawn(Some(title_bar), Role::Plain, container_node);
    registry.spawn(Some(title_container), Role::Plain, Node::default());
    let buttons = registry.spawn(Some(title_bar), Role::Plain, Node::default());
    create_button(
        registry,
        buttons,
        Role::CollapseButton(WindowCollapseButton { window_entity }),
    );
    create_button(
        registry,
        buttons,
        Role::MinimizeButton(WindowMinimizeButton { window_entity }),
    );
    create_button(
        registry,
        buttons,
        Role::MaximizeButton(WindowMaximizeButton { window_entity }),
    );
    create_button(registry, buttons, Role::CloseButton(WindowCloseButton { window_entity }));

    let mut area_node = Node::default();
    area_node.width = Val::Percent(100);
    area_node.height = Val::Percent(100);
    area_node.flex_direction = FlexDirection::Column;
    let content_area = registry.spawn(
        Some(window_entity),
        Role::ContentArea(WindowContent, WindowContentArea { window_entity }),
        area_node,
    );
    registry.spawn(Some(content_area), Role::Plain, Node::default());

    create_resize_handle(registry, window_entity, ResizeHandle::TopLeft, size);
    create_resize_handle(registry, window_entity, ResizeHandle::TopRight, size);
    create_resize_handle(registry, window_entity, ResizeHandle::BottomLeft, size);
    create_resize_handle(registry, window_entity, ResizeHandle::BottomRight, size);
    create_resize_handle(registry, window_entity, ResizeHandle::Top, size);
    create_resize_handle(registry, window_entity, ResizeHandle::Bottom, size);
    create_resize_handle(registry, window_entity, ResizeHandle::Left, size);
    create_resize_handle(registry, window_entity, ResizeHandle::Right, size);
    window_entity
}

/// The node of a resize handle moved to where it belongs in a window of
/// the given size. A corner keeps its size; an edge handle is stretched
/// along its edge.
pub open spec fn repositioned(n: Node, handle: ResizeHandle, size: Vec2) -> Node {
    let s = RESIZE_HANDLE_SIZE as int;
    match handle {
        ResizeHandle::TopLeft => Node { left: Val::Px(0), top: Val::Px(0), ..n },
        ResizeHandle::TopRight => Node { left: Val::Px((size.x - s) as i32), top: Val::Px(0), ..n },
        ResizeHandle::BottomLeft => Node {
            left: Val::Px(0),
            top: Val::Px((size.y - s) as i32),
            ..n
        },
        ResizeHandle::BottomRight => Node {
            left: Val::Px((size.x - s) as i32),
            top: Val::Px((size.y - s) as i32),
            ..n
        },
        ResizeHandle::Top => Node {
            left: Val::Px(s as i32),
            top: Val::Px(0),
            width: Val::Px((size.x - 2 * s) as i32),
            ..n
        },
        ResizeHandle::Bottom => Node {
            left: Val::Px(s as i32),
            top: Val::Px((size.y - s) as i32),
            width: Val::Px((size.x - 2 * s) as i32),
            ..n
        },
        ResizeHandle::Left => Node {
            left: Val::Px(0),
            top: Val::Px(s as i32),
            height: Val::Px((size.y - 2 * s) as i32),
            ..n
        },
        ResizeHandle::Right => Node {
            left: Val::Px((size.x - s) as i32),
            top: Val::Px(s as i32),
            height: Val::Px((size.y - 2 * s) as i32),
            ..n
        },
        ResizeHandle::DragSentinel => n,
    }
}

/// `e` is a live resize handle of a live window whose size is a stored
/// size.
pub open spec fn is_placeable_handle(s: Seq<UiEntity>, e: int) -> bool {
    &&& 0 <= e < s.len()
    &&& s[e].alive
    &&& s[e].role matches Role::ResizeHandle(_, owner)
    &&& is_window(s, owner.window_entity as int)
    &&& window_of(s, owner.window_entity as int).size.in_range()
}

/// The arena after every resize handle was moved to where the size of
/// its window puts it.
pub open spec fn handles_synced(s: Seq<UiEntity>) -> Seq<UiEntity> {
    Seq::new(
        s.len(),
        |e: int|
            if is_placeable_handle(s, e) {
                UiEntity {
                    node: repositioned(
                        s[e].node,
                        s[e].role->ResizeHandle_0.handle_type,
                        window_of(s, s[e].role->ResizeHandle_1.window_entity as int).size,
                    ),
                    ..s[e]
                }
            } else {
                s[e]
            },
    )
}

fn reposition(node: &mut Node, handle: ResizeHandle, size: Vec2)
    requires
        size.in_range(),
    ensures
        *final(node) == repositioned(*old(node), handle, size),
{
    let s: i32 = RESIZE_HANDLE_SIZE;
    match handle {
        ResizeHandle::TopLeft => {
            node.left = Val::Px(0);
            node.top = Val::Px(0);
        },
        ResizeHandle::TopRight => {
            node.left = Val::Px(size.x - s);
            node.top = Val::Px(0);
        },
        ResizeHandle::BottomLeft => {
            node.left = Val::Px(0);
            node.top = Val::Px(size.y - s);
        },
        ResizeHandle::BottomRight => {
            node.left = Val::Px(size.x - s);
            node.top = Val::Px(size.y - s);
        },
        ResizeHandle::Top => {
            node.left = Val::Px(s);
            node.top = Val::Px(0);
            node.width = Val::Px(size.x - 2 * s);
        },
        ResizeHandle::Bottom => {
            node.left = Val::Px(s);
            node.top = Val::Px(size.y - s);
            node.width = Val::Px(size.x - 2 * s);
        },
        ResizeHandle::Left => {
            node.left = Val::Px(0);
            node.top = Val::Px(s);
            node.height = Val::Px(size.y - 2 * s);
        },
        ResizeHandle::Right => {
            node.left = Val::Px(size.x - s);
            node.top = Val::Px(s);
            node.height = Val::Px(size.y - 2 * s);
        },
        ResizeHandle::DragSentinel => {},
    }
}

/// Moves every resize handle to where the size of its window puts it.
pub fn update_resize_handle_positions(registry: &mut WindowRegistry)
    requires
        old(registry).wf(),
    ensures
        final(registry).entities@ == handles_synced(old(registry).entities@),
        final(registry).wf(),
{
    let ghost s0 = registry.entities@;
    let mut e: usize = 0;
    while e < registry.entities.len()
        invariant
            e <= registry.entities.len(),
            registry.entities.len() == s0.len(),
            forall|j: int| 0 <= j < e ==> registry.entities@[j] == handles_synced(s0)[j],
            forall|j: int| 0 <= j < s0.len() ==> registry.entities@[j].role == s0[j].role,
            forall|j: int| 0 <= j < s0.len() ==> registry.entities@[j].alive == s0[j].alive,
            forall|j: int| e <= j < s0.len() ==> registry.entities@[j] == s0[j],
        decreases registry.entities.len() - e,
    {
        if registry.entities[e].alive {
            let held = match &registry.entities[e].role {
                Role::ResizeHandle(handle, owner) => {
                    Some((handle.handle_type, owner.window_entity))
                },
                _ => None,
            };
            if let Some((handle_type, window_entity)) = held {
                let size = match registry.window(window_entity) {
                    Some(w) => Some(w.size),
                    None => None,
                };
                if let Some(size) = size {
                    if size.check_in_range() {
                        reposition(&mut registry.entities[e].node, handle_type, size);
                    }
                }
            }
        }
        e = e + 1;
    }
    proof {
        assert(registry.entities@ =~= handles_synced(s0));
    }
}

} // verus!
