//! The window registry: an arena of UI entities that holds every window
//! record together with its chrome.
//!
//! An entity is named by its index in the arena and keeps that index for
//! good; a despawned entity stays in place, marked dead. Every entity is
//! created after its parent, so a parent's index is smaller than its
//! children's and the children of an entity, in the order of their
//! indices, are its children in the order of their creation.

use vstd::prelude::*;
use crate::handle::ResizeHandle;
use crate::layout::{Node, Visibility};
use crate::window::Window;

verus! {

/// Marks the title bar of `window_entity`.
#[derive(Clone, Copy, Debug, PartialEq, Eq, Structural)]
pub struct WindowTitleBar {
    pub window_entity: usize,
}

/// Marks an entity that is hidden when its window collapses.
#[derive(Clone, Copy, Debug, PartialEq, Eq, Structural)]
pub struct WindowContent;

/// Marks the close button of `window_entity`.
#[derive(Clone, Copy, Debug, PartialEq, Eq, Structural)]
pub struct WindowCloseButton {
    pub window_entity: usize,
}

/// Marks the minimize button of `window_entity`.
#[derive(Clone, Copy, Debug, PartialEq, Eq, Structural)]
pub struct WindowMinimizeButton {
    pub window_entity: usize,
}

/// Marks the maximize button of `window_entity`.
#[derive(Clone, Copy, Debug, PartialEq, Eq, Structural)]
pub struct WindowMaximizeButton {
    pub window_entity: usize,
}

/// Marks the collapse button of `window_entity`.
#[derive(Clone, Copy, Debug, PartialEq, Eq, Structural)]
pub struct WindowCollapseButton {
    pub window_entity: usize,
}

/// Marks the content area of `window_entity`.
#[derive(Clone, Copy, Debug, PartialEq, Eq, Structural)]
pub struct WindowContentArea {
    pub window_entity: usize,
}

/// Marks a resize hit-region and says which one it is.
#[derive(Clone, Copy, Debug, PartialEq, Eq, Structural)]
pub struct WindowResizeHandle {
    pub handle_type: ResizeHandle,
}

/// Says which window a resize hit-region belongs to.
#[derive(Clone, Copy, Debug, PartialEq, Eq, Structural)]
pub struct ResizeHandleRef {
    pub window_entity: usize,
}

/// What an entity is to the window manager.
#[derive(Debug, Clone)]
pub enum Role {
    /// The root of a window, with its record.
    Window(Window),
    TitleBar(WindowTitleBar),
    CollapseButton(WindowCollapseButton),
    MinimizeButton(WindowMinimizeButton),
    MaximizeButton(WindowMaximizeButton),
    CloseButton(WindowCloseButton),
    ContentArea(WindowContent, WindowContentArea),
    ResizeHandle(WindowResizeHandle, ResizeHandleRef),
    /// Any other node: a container, a label, a piece of content.
    Plain,
}

/// One entity of the arena.
#[derive(Debug, Clone)]
pub struct UiEntity {
    /// Cleared when the entity is despawned.
    pub alive: bool,
    pub parent: Option<usize>,
    pub role: Role,
    pub node: Node,
    pub visibility: Visibility,
    /// The draw order handed to the layout collaborator.
    pub z_index: i32,
}

/// The arena of UI entities.
pub struct WindowRegistry {
    pub entities: Vec<UiEntity>,
}

/// `id` names a live window of the arena `s`.
pub open spec fn is_window(s: Seq<UiEntity>, id: int) -> bool {
    &&& 0 <= id < s.len()
    &&& s[id].alive
    &&& s[id].role is Window
}

/// The record of window `id`.
pub open spec fn window_of(s: Seq<UiEntity>, id: int) -> Window
    recommends
        is_window(s, id),
{
    s[id].role->Window_0
}

/// The entity `id` with another window record in place of its own.
pub open spec fn with_window(e: UiEntity, w: Window) -> UiEntity {
    UiEntity { role: Role::Window(w), ..e }
}

/// `e` is a live child of `parent`.
pub open spec fn is_child(s: Seq<UiEntity>, parent: int, e: int) -> bool {
    &&& 0 <= e < s.len()
    &&& s[e].alive
    &&& s[e].parent == Some(parent as usize)
    &&& 0 <= parent < e
}

/// `e` is `root` or lies below it.
pub open spec fn is_under(s: Seq<UiEntity>, root: int, e: int) -> bool
    decreases e,
{
    if e == root {
        true
    } else if 0 <= e < s.len() {
        match s[e].parent {
            Some(p) => p < e && is_under(s, root, p as int),
            None => false,
        }
    } else {
        false
    }
}

/// Every entity was created after its parent.
pub open spec fn parents_first(s: Seq<UiEntity>) -> bool {
    forall|e: int| 0 <= e < s.len() ==> ((#[trigger] s[e]).parent matches Some(p) ==> p < e)
}

impl WindowRegistry {
    /// The well-formedness of the arena.
    pub open spec fn wf(&self) -> bool {
        parents_first(self.entities@)
    }

    /// An arena without entities.
    pub fn new() -> (r: WindowRegistry)
        ensures
            r.entities@ == Seq::<UiEntity>::empty(),
            r.wf(),
    {
        WindowRegistry { entities: Vec::new() }
    }

    /// Run-time test of [`WindowRegistry::wf`].
    pub fn check_wf(&self) -> (ok: bool)
        ensures
            ok == self.wf(),
    {
        let mut e: usize = 0;
        while e < self.entities.len()
            invariant
                e <= self.entities.len(),
                forall|k: int|
                    0 <= k < e ==> ((#[trigger] self.entities@[k]).parent matches Some(p) ==> p
                        < k),
            decreases self.entities.len() - e,
        {
            let sound = match self.entities[e].parent {
                Some(p) => p < e,
                None => true,
            };
            if !sound {
                return false;
            }
            e = e + 1;
        }
        true
    }

    /// The arena with one more live entity at its end.
    pub open spec fn spawned(
        s: Seq<UiEntity>,
        parent: Option<usize>,
        role: Role,
        node: Node,
    ) -> Seq<UiEntity> {
        s.push(
            UiEntity {
                alive: true,
                parent,
                role,
                node,
                visibility: Visibility::Inherited,
                z_index: 0,
            },
        )
    }

    /// Adds a live entity below `parent` and returns its name.
    pub fn spawn(&mut self, parent: Option<usize>, role: Role, node: Node) -> (id: usize)
        requires
            old(self).wf(),
            parent matches Some(p) ==> p < old(self).entities.len(),
        ensures
            id == old(self).entities.len(),
            final(self).entities@ == Self::spawned(old(self).entities@, parent, role, node),
            final(self).wf(),
    {
        let id = self.entities.len();
        self.entities.push(
            UiEntity {
                alive: true,
                parent,
                role,
                node,
                visibility: Visibility::Inherited,
                z_index: 0,
            },
        );
        id
    }

    /// Computes [`is_window`].
    pub fn contains_window(&self, id: usize) -> (r: bool)
        ensures
            r == is_window(self.entities@, id as int),
    {
        if id < self.entities.len() {
            self.entities[id].alive && matches!(self.entities[id].role, Role::Window(_))
        } else {
            false
        }
    }

    /// The record of window `id`, if `id` names a live window.
    pub fn window(&self, id: usize) -> (w: Option<&Window>)
        ensures
            is_window(self.entities@, id as int) ==> w == Some(
                &window_of(self.entities@, id as int),
            ),
            !is_window(self.entities@, id as int) ==> w is None,
    {
        if id < self.entities.len() && self.entities[id].alive {
            match &self.entities[id].role {
                Role::Window(w) => Some(w),
                _ => None,
            }
        } else {
            None
        }
    }

    /// For each entity, whether it is `root` or lies below it.
    pub fn subtree(&self, root: usize) -> (flags: Vec<bool>)
        requires
            self.wf(),
        ensures
            flags.len() == self.entities.len(),
            forall|e: int|
                0 <= e < flags.len() ==> flags[e] == is_under(self.entities@, root as int, e),
    {
        let mut flags: Vec<bool> = Vec::new();
        let mut e: usize = 0;
        while e < self.entities.len()
            invariant
                self.wf(),
                e <= self.entities.len(),
                flags.len() == e,
                forall|j: int| 0 <= j < e ==> flags[j] == is_under(self.entities@, root as int, j),
            decreases self.entities.len() - e,
        {
            let under = if e == root {
                true
            } else {
                match self.entities[e].parent {
                    Some(p) => p < e && flags[p],
                    None => false,
                }
            };
            flags.push(under);
            e = e + 1;
        }
        flags
    }
}

} // verus!
