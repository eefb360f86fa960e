//! The window manager's state, as far as the commands read and change it.

use std::collections::HashSet;

use vstd::prelude::*;

use crate::native_window_properties::NativeWindowProperties;
use crate::rect::Rect;

verus! {

broadcast use vstd::std_specs::hash::group_hash_axioms;

/// Identity of a container: a window, a workspace, a monitor or what lies
/// between them.
pub type ContainerId = u128;

/// Handle by which the system knows a window. Zero stands for no window.
pub type WindowId = i64;

/// System that the window manager runs on.
#[derive(PartialEq, Eq, Structural, Clone, Copy, Debug)]
pub enum TargetOs {
    Windows,
    MacOs,
    Other,
}

#[derive(PartialEq, Eq, Structural, Clone, Copy, Debug)]
pub struct FloatingStateConfig {
    pub shown_on_top: bool,
}

#[derive(PartialEq, Eq, Structural, Clone, Copy, Debug)]
pub struct FullscreenStateConfig {
    pub maximized: bool,
    pub shown_on_top: bool,
}

/// State in which the window manager holds a window.
#[derive(PartialEq, Eq, Structural, Clone, Copy, Debug)]
pub enum WindowState {
    Tiling,
    Floating(FloatingStateConfig),
    Fullscreen(FullscreenStateConfig),
    Minimized,
}

impl WindowState {
    /// Whether two states are of the same kind, however each is configured.
    pub open spec fn same_state(self, other: WindowState) -> bool {
        match self {
            WindowState::Tiling => other is Tiling,
            WindowState::Floating(_) => other is Floating,
            WindowState::Fullscreen(_) => other is Fullscreen,
            WindowState::Minimized => other is Minimized,
        }
    }

    /// Whether two states are of the same kind, however each is configured.
    pub fn is_same_state(&self, other: &WindowState) -> (r: bool)
        ensures
            r == self.same_state(*other),
    {
        match (self, other) {
            (WindowState::Tiling, WindowState::Tiling) => true,
            (WindowState::Floating(_), WindowState::Floating(_)) => true,
            (WindowState::Fullscreen(_), WindowState::Fullscreen(_)) => true,
            (WindowState::Minimized, WindowState::Minimized) => true,
            _ => false,
        }
    }
}

/// Whether a window is on screen, or on its way there or back.
#[derive(PartialEq, Eq, Structural, Clone, Copy, Debug)]
pub enum DisplayState {
    Shown,
    Showing,
    Hidden,
    Hiding,
}

impl DisplayState {
    /// Whether the window is on screen or about to be.
    pub open spec fn visible(self) -> bool {
        self is Shown || self is Showing
    }

    /// Whether the window is on screen or about to be.
    pub fn is_visible(&self) -> (r: bool)
        ensures
            r == self.visible(),
    {
        matches!(self, DisplayState::Shown | DisplayState::Showing)
    }
}

/// Corner of a monitor in which hidden windows are put away.
#[derive(PartialEq, Eq, Structural, Clone, Copy, Debug)]
pub enum HideCorner {
    BottomLeft,
    BottomRight,
}

/// Where a window goes in the stack of windows.
#[derive(PartialEq, Eq, Structural, Clone, Copy, Debug)]
pub enum WindowZOrder {
    Normal,
    AfterWindow(WindowId),
    TopMost,
}

/// A window that the window manager manages.
#[derive(Debug)]
pub struct Window {
    pub native: WindowId,
    pub state: WindowState,
    pub display_state: DisplayState,
    pub native_properties: NativeWindowProperties,
    /// Where the window is placed: the rect that the layout gives it, grown by
    /// its border delta. Where that cannot be worked out, the reason in words.
    pub placement: Result<Rect, String>,
    /// Whether the user is dragging the window.
    pub has_active_drag: bool,
    /// Whether the window has yet to adjust to the DPI of its monitor.
    pub has_pending_dpi_adjustment: bool,
}

/// A container of the tree that the window manager arranges.
#[derive(Debug)]
pub struct Container {
    pub id: ContainerId,
    /// Workspace that the container is or lies in.
    pub workspace: Option<ContainerId>,
    /// Monitor that the container is or lies on.
    pub monitor: Option<ContainerId>,
    /// Rect that the layout gives the container. Where it cannot be worked out,
    /// the reason in words.
    pub rect: Result<Rect, String>,
    /// The window, where the container is one.
    pub window: Option<Window>,
}

/// A workspace.
#[derive(Debug)]
pub struct Workspace {
    pub id: ContainerId,
    pub name: String,
    pub is_displayed: bool,
    /// Every container in the workspace, in the order of the tree.
    pub descendants: Vec<ContainerId>,
    /// Those of them that can have focus, the one focused last coming first.
    pub focus_order: Vec<ContainerId>,
}

/// A monitor.
#[derive(Debug)]
pub struct Monitor {
    pub id: ContainerId,
    pub bounds: Rect,
    /// The bounds without what the taskbar reserves.
    pub working_area: Rect,
    /// Rect that the layout gives the monitor. Where it cannot be worked out,
    /// the reason in words.
    pub rect: Result<Rect, String>,
}

/// What is yet to be carried over to the system.
#[derive(Debug)]
pub struct PendingSync {
    pub containers_to_redraw: Vec<ContainerId>,
    /// The windows among the containers to redraw and their descendants.
    pub windows_to_redraw: Vec<ContainerId>,
    pub workspaces_to_reorder: Vec<ContainerId>,
    pub needs_focus_update: bool,
    pub needs_focused_effect_update: bool,
    pub needs_all_effects_update: bool,
    pub needs_cursor_jump: bool,
}

impl PendingSync {
    /// Whether nothing is left to be carried over.
    pub open spec fn is_clear(self) -> bool {
        &&& self.containers_to_redraw@.len() == 0
        &&& self.windows_to_redraw@.len() == 0
        &&& self.workspaces_to_reorder@.len() == 0
        &&& !self.needs_focus_update
        &&& !self.needs_focused_effect_update
        &&& !self.needs_all_effects_update
        &&& !self.needs_cursor_jump
    }

    /// Asks for focus to be carried over.
    pub fn queue_focus_change(&mut self)
        ensures
            *final(self) == (PendingSync { needs_focus_update: true, ..*old(self) }),
    {
        self.needs_focus_update = true;
    }

    /// Asks for the cursor to jump to what has focus.
    pub fn queue_cursor_jump(&mut self)
        ensures
            *final(self) == (PendingSync { needs_cursor_jump: true, ..*old(self) }),
    {
        self.needs_cursor_jump = true;
    }

    /// Asks for the effects of the window with focus to be brought up to date.
    pub fn queue_focused_effect_update(&mut self)
        ensures
            *final(self) == (PendingSync { needs_focused_effect_update: true, ..*old(self) }),
    {
        self.needs_focused_effect_update = true;
    }

    /// Whether `after` is `before` with one more workspace to reorder.
    pub open spec fn queued_workspace(
        before: PendingSync,
        after: PendingSync,
        workspace: ContainerId,
    ) -> bool {
        &&& after.workspaces_to_reorder@ == before.workspaces_to_reorder@.push(workspace)
        &&& after == (PendingSync { workspaces_to_reorder: after.workspaces_to_reorder, ..before })
    }

    /// Asks for the windows of a workspace to be restacked.
    pub fn queue_workspace_to_reorder(&mut self, workspace: ContainerId)
        ensures
            PendingSync::queued_workspace(*old(self), *final(self), workspace),
    {
        self.workspaces_to_reorder.push(workspace);
    }

    /// Leaves nothing to be carried over.
    pub fn clear(&mut self)
        ensures
            final(self).is_clear(),
    {
        self.containers_to_redraw.clear();
        self.windows_to_redraw.clear();
        self.workspaces_to_reorder.clear();
        self.needs_focus_update = false;
        self.needs_focused_effect_update = false;
        self.needs_all_effects_update = false;
        self.needs_cursor_jump = false;
    }
}

/// A window, by the identity of its container and by its native handle.
#[derive(PartialEq, Eq, Structural, Clone, Copy, Debug)]
pub struct WindowRef {
    pub id: ContainerId,
    pub native: WindowId,
}

/// State of the window manager.
#[derive(Debug)]
pub struct WmState {
    pub os: TargetOs,
    /// Whether the user has paused the window manager.
    pub is_paused: bool,
    /// Every container of the tree, in its order.
    pub containers: Vec<Container>,
    pub workspaces: Vec<Workspace>,
    pub monitors: Vec<Monitor>,
    /// The corner of each monitor in which a window is best put away.
    pub monitors_by_hide_corner: Vec<(ContainerId, HideCorner)>,
    /// The container that the window manager holds to have focus.
    pub focused: Option<ContainerId>,
    /// The containers of the tree that can have focus, the one focused last
    /// coming first.
    pub focus_order: Vec<ContainerId>,
    pub pending_sync: PendingSync,
    /// The window that the effects for a focused window were last given to.
    pub prev_effects_window: Option<WindowRef>,
    /// The windows that the shell was last told are fullscreen.
    pub windows_marked_fullscreen: HashSet<WindowId>,
    /// Whether the system's focus is where the window manager holds it to be.
    pub is_focus_synced: bool,
    /// Polls in a row that have seen focus stranded.
    pub stranded_focus_ticks: u32,
    /// Attempts at winning back focus since it was last seen anywhere real.
    pub stranded_focus_attempts: u32,
}

pub open spec fn container_ids(containers: Seq<Container>) -> Seq<ContainerId> {
    containers.map_values(|c: Container| c.id)
}

pub open spec fn workspace_ids(workspaces: Seq<Workspace>) -> Seq<ContainerId> {
    workspaces.map_values(|w: Workspace| w.id)
}

pub open spec fn monitor_ids(monitors: Seq<Monitor>) -> Seq<ContainerId> {
    monitors.map_values(|m: Monitor| m.id)
}

/// The native window that each container stands for, if it is a window.
pub open spec fn native_ids(containers: Seq<Container>) -> Seq<Option<WindowId>> {
    containers.map_values(
        |c: Container|
            match c.window {
                Some(w) => Some(w.native),
                None => None,
            },
    )
}

/// The container with its window, if it is one, in another display state.
pub open spec fn with_display_state(c: Container, display_state: DisplayState) -> Container {
    Container {
        window: match c.window {
            Some(w) => Some(Window { display_state, ..w }),
            None => None,
        },
        ..c
    }
}

/// A sequence that holds `x` at `i`, and nowhere before it, has it first at
/// `i`.
pub proof fn lemma_first_at<A>(s: Seq<A>, x: A, i: int)
    requires
        0 <= i < s.len(),
        s[i] == x,
        forall|j: int| 0 <= j < i ==> s[j] != x,
    ensures
        s.index_of_first(x) == Some(i),
{
    s.index_of_first_ensures(x);
}

/// A sequence that does not hold `x` has it first nowhere.
pub proof fn lemma_first_nowhere<A>(s: Seq<A>, x: A)
    requires
        forall|j: int| 0 <= j < s.len() ==> s[j] != x,
    ensures
        s.index_of_first(x) == None::<int>,
{
    s.index_of_first_ensures(x);
}

/// Where an identity first occurs in a list.
pub fn position(ids: &Vec<ContainerId>, id: ContainerId) -> (r: Option<usize>)
    ensures
        match r {
            Some(i) => ids@.index_of_first(id) == Some(i as int) && i < ids@.len(),
            None => ids@.index_of_first(id) == None::<int>,
        },
{
    let mut i: usize = 0;
    while i < ids.len()
        invariant
            i <= ids.len(),
            forall|j: int| 0 <= j < i ==> ids@[j] != id,
        decreases ids.len() - i,
    {
        if ids[i] == id {
            proof {
                lemma_first_at(ids@, id, i as int);
            }
            return Some(i);
        }
        i += 1;
    }
    proof {
        lemma_first_nowhere(ids@, id);
    }
    None
}

/// Whether an identity occurs in a list.
pub fn contains(ids: &Vec<ContainerId>, id: ContainerId) -> (r: bool)
    ensures
        r == ids@.contains(id),
{
    proof {
        ids@.index_of_first_ensures(id);
    }
    position(ids, id).is_some()
}

impl WmState {
    /// The container with the given identity.
    pub open spec fn find_container(self, id: ContainerId) -> Option<Container> {
        match container_ids(self.containers@).index_of_first(id) {
            Some(i) => Some(self.containers@[i]),
            None => None,
        }
    }

    /// The workspace with the given identity.
    pub open spec fn find_workspace(self, id: ContainerId) -> Option<Workspace> {
        match workspace_ids(self.workspaces@).index_of_first(id) {
            Some(i) => Some(self.workspaces@[i]),
            None => None,
        }
    }

    /// The monitor with the given identity.
    pub open spec fn find_monitor(self, id: ContainerId) -> Option<Monitor> {
        match monitor_ids(self.monitors@).index_of_first(id) {
            Some(i) => Some(self.monitors@[i]),
            None => None,
        }
    }

    /// The window with the given identity, if that is one.
    pub open spec fn find_window(self, id: ContainerId) -> Option<Window> {
        match self.find_container(id) {
            Some(c) => c.window,
            None => None,
        }
    }

    /// The container that stands for a native window.
    pub open spec fn find_native(self, native: WindowId) -> Option<Container> {
        match native_ids(self.containers@).index_of_first(Some(native)) {
            Some(i) => Some(self.containers@[i]),
            None => None,
        }
    }

    /// The workspace that a container is or lies in.
    pub open spec fn workspace_of(self, c: Container) -> Option<Workspace> {
        match c.workspace {
            Some(id) => self.find_workspace(id),
            None => None,
        }
    }

    /// The monitor that a container is or lies on.
    pub open spec fn monitor_of(self, c: Container) -> Option<Monitor> {
        match c.monitor {
            Some(id) => self.find_monitor(id),
            None => None,
        }
    }

    /// The container that has focus.
    pub open spec fn find_focused(self) -> Option<Container> {
        match self.focused {
            Some(id) => self.find_container(id),
            None => None,
        }
    }

    /// What was focused last in a workspace, if that is a window.
    pub open spec fn focused_descendant(self, workspace: Workspace) -> Option<WindowRef> {
        if workspace.focus_order@.len() == 0 {
            None
        } else {
            match self.find_window(workspace.focus_order@[0]) {
                Some(w) => Some(WindowRef { id: workspace.focus_order@[0], native: w.native }),
                None => None,
            }
        }
    }

    /// The containers that are windows, in the order of the tree.
    pub open spec fn window_refs(self) -> Seq<WindowRef> {
        window_refs_of(self.containers@)
    }

    /// The container with the given identity.
    pub fn container(&self, id: ContainerId) -> (r: Option<&Container>)
        ensures
            match r {
                Some(c) => self.find_container(id) == Some(*c) && c.id == id,
                None => self.find_container(id) is None,
            },
    {
        match self.container_index(id) {
            Some(i) => Some(&self.containers[i]),
            None => None,
        }
    }

    /// Where the container with the given identity stands in the tree's order.
    fn container_index(&self, id: ContainerId) -> (r: Option<usize>)
        ensures
            match r {
                Some(i) => {
                    &&& container_ids(self.containers@).index_of_first(id) == Some(i as int)
                    &&& i < self.containers@.len()
                    &&& self.containers@[i as int].id == id
                },
                None => container_ids(self.containers@).index_of_first(id) == None::<int>,
            },
    {
        let ghost ids = container_ids(self.containers@);
        let mut i: usize = 0;
        while i < self.containers.len()
            invariant
                i <= self.containers.len(),
                ids == container_ids(self.containers@),
                forall|j: int| 0 <= j < i ==> ids[j] != id,
            decreases self.containers.len() - i,
        {
            if self.containers[i].id == id {
                proof {
                    lemma_first_at(ids, id, i as int);
                }
                return Some(i);
            }
            i += 1;
        }
        proof {
            lemma_first_nowhere(ids, id);
        }
        None
    }

    /// The container that stands for a native window.
    pub fn window_from_native(&self, native: WindowId) -> (r: Option<&Container>)
        ensures
            match r {
                Some(c) => {
                    &&& self.find_native(native) == Some(*c)
                    &&& c.window matches Some(w) && w.native == native
                },
                None => self.find_native(native) is None,
            },
    {
        let ghost natives = native_ids(self.containers@);
        let mut i: usize = 0;
        while i < self.containers.len()
            invariant
                i <= self.containers.len(),
                natives == native_ids(self.containers@),
                forall|j: int| 0 <= j < i ==> natives[j] != Some(native),
            decreases self.containers.len() - i,
        {
            if let Some(w) = &self.containers[i].window {
                if w.native == native {
                    proof {
                        lemma_first_at(natives, Some(native), i as int);
                    }
                    return Some(&self.containers[i]);
                }
            }
            i += 1;
        }
        proof {
            lemma_first_nowhere(natives, Some(native));
        }
        None
    }

    /// The workspace with the given identity.
    pub fn workspace(&self, id: ContainerId) -> (r: Option<&Workspace>)
        ensures
            match r {
                Some(w) => self.find_workspace(id) == Some(*w) && w.id == id,
                None => self.find_workspace(id) is None,
            },
    {
        let ghost ids = workspace_ids(self.workspaces@);
        let mut i: usize = 0;
        while i < self.workspaces.len()
            invariant
                i <= self.workspaces.len(),
                ids == workspace_ids(self.workspaces@),
                forall|j: int| 0 <= j < i ==> ids[j] != id,
            decreases self.workspaces.len() - i,
        {
            if self.workspaces[i].id == id {
                proof {
                    lemma_first_at(ids, id, i as int);
                }
                return Some(&self.workspaces[i]);
            }
            i += 1;
        }
        proof {
            lemma_first_nowhere(ids, id);
        }
        None
    }

    /// The monitor with the given identity.
    pub fn monitor(&self, id: ContainerId) -> (r: Option<&Monitor>)
        ensures
            match r {
                Some(m) => {
                    &&& self.find_monitor(id) == Some(*m)
                    &&& m.id == id
                    &&& self.monitors@.contains(*m)
                },
                None => self.find_monitor(id) is None,
            },
    {
        let ghost ids = monitor_ids(self.monitors@);
        let mut i: usize = 0;
        while i < self.monitors.len()
            invariant
                i <= self.monitors.len(),
                ids == monitor_ids(self.monitors@),
                forall|j: int| 0 <= j < i ==> ids[j] != id,
            decreases self.monitors.len() - i,
        {
            if self.monitors[i].id == id {
                proof {
                    lemma_first_at(ids, id, i as int);
                }
                return Some(&self.monitors[i]);
            }
            i += 1;
        }
        proof {
            lemma_first_nowhere(ids, id);
        }
        None
    }

    /// The workspace that a container is or lies in.
    pub fn containing_workspace(&self, c: &Container) -> (r: Option<&Workspace>)
        ensures
            match r {
                Some(w) => self.workspace_of(*c) == Some(*w) && c.workspace == Some(w.id),
                None => self.workspace_of(*c) is None,
            },
    {
        match c.workspace {
            Some(id) => self.workspace(id),
            None => None,
        }
    }

    /// The monitor that a container is or lies on.
    pub fn containing_monitor(&self, c: &Container) -> (r: Option<&Monitor>)
        ensures
            match r {
                Some(m) => {
                    &&& self.monitor_of(*c) == Some(*m)
                    &&& c.monitor == Some(m.id)
                    &&& self.monitors@.contains(*m)
                },
                None => self.monitor_of(*c) is None,
            },
    {
        match c.monitor {
            Some(id) => self.monitor(id),
            None => None,
        }
    }

    /// The container that has focus.
    pub fn focused_container(&self) -> (r: Option<&Container>)
        ensures
            match r {
                Some(c) => self.find_focused() == Some(*c) && self.focused == Some(c.id),
                None => self.find_focused() is None,
            },
    {
        match self.focused {
            Some(id) => self.container(id),
            None => None,
        }
    }

    /// What was focused last in a workspace, if that is a window.
    pub fn focused_window_of(&self, workspace: &Workspace) -> (r: Option<WindowRef>)
        ensures
            r == self.focused_descendant(*workspace),
    {
        if workspace.focus_order.len() == 0 {
            return None;
        }
        let id: ContainerId = workspace.focus_order[0];
        match self.container(id) {
            Some(c) => match &c.window {
                Some(w) => Some(WindowRef { id, native: w.native }),
                None => None,
            },
            None => None,
        }
    }

    /// The containers that are windows, in the order of the tree.
    pub fn windows(&self) -> (r: Vec<WindowRef>)
        ensures
            r@ == self.window_refs(),
    {
        let mut r: Vec<WindowRef> = Vec::new();
        let mut i: usize = 0;
        while i < self.containers.len()
            invariant
                i <= self.containers.len(),
                r@ == window_refs_of(self.containers@.take(i as int)),
            decreases self.containers.len() - i,
        {
            proof {
                assert(self.containers@.take(i + 1).drop_last() =~= self.containers@.take(i as int));
            }
            if let Some(w) = &self.containers[i].window {
                r.push(WindowRef { id: self.containers[i].id, native: w.native });
            }
            i += 1;
        }
        proof {
            assert(self.containers@.take(i as int) =~= self.containers@);
        }
        r
    }

    /// Puts a window into another display state.
    pub fn set_display_state(&mut self, id: ContainerId, display_state: DisplayState)
        ensures
            *final(self) == (WmState { containers: final(self).containers, ..*old(self) }),
            match container_ids(old(self).containers@).index_of_first(id) {
                Some(i) => final(self).containers@ == old(self).containers@.update(
                    i,
                    with_display_state(old(self).containers@[i], display_state),
                ),
                None => final(self).containers@ == old(self).containers@,
            },
    {
        match self.container_index(id) {
            Some(i) => {
                if let Some(w) = &mut self.containers[i].window {
                    w.display_state = display_state;
                }
            },
            None => {},
        }
    }
}

/// The windows among containers, in their order.
pub open spec fn window_refs_of(containers: Seq<Container>) -> Seq<WindowRef>
    decreases containers.len(),
{
    if containers.len() == 0 {
        Seq::empty()
    } else {
        let rest = window_refs_of(containers.drop_last());
        match containers.last().window {
            Some(w) => rest.push(WindowRef { id: containers.last().id, native: w.native }),
            None => rest,
        }
    }
}

/// Two states are of the same kind just if both are tiling, both floating, both
/// fullscreen or both minimized.
pub proof fn law_states_of_one_kind(a: WindowState, b: WindowState)
    ensures
        a.same_state(b) <==> {
            ||| a is Tiling && b is Tiling
            ||| a is Floating && b is Floating
            ||| a is Fullscreen && b is Fullscreen
            ||| a is Minimized && b is Minimized
        },
{
}

/// A container that is listed is found by its identity, unless one with the
/// same identity is listed before it. Where it is a window, it is found as that
/// too, and where its identity is that of what has focus, it is found to have
/// focus.
pub proof fn law_listed_container_is_found(state: WmState, i: int)
    requires
        0 <= i < state.containers@.len(),
        forall|j: int|
            0 <= j < i ==> (#[trigger] state.containers@[j]).id != state.containers@[i].id,
    ensures
        state.find_container(state.containers@[i].id) == Some(state.containers@[i]),
        state.find_window(state.containers@[i].id) == state.containers@[i].window,
        state.focused == Some(state.containers@[i].id) ==> state.find_focused() == Some(
            state.containers@[i],
        ),
{
    let ids = container_ids(state.containers@);
    assert forall|j: int| 0 <= j < i implies ids[j] != state.containers@[i].id by {
        assert(state.containers@[j].id != state.containers@[i].id);
    }
    lemma_first_at(ids, state.containers@[i].id, i);
}

/// A workspace that is listed is found by its identity and as that of every
/// container that lies in it, unless one with the same identity is listed
/// before it. What was focused last in it is the first container of its order
/// of focus, if that is a window.
pub proof fn law_listed_workspace_is_found(state: WmState, i: int, c: Container)
    requires
        0 <= i < state.workspaces@.len(),
        forall|j: int|
            0 <= j < i ==> (#[trigger] state.workspaces@[j]).id != state.workspaces@[i].id,
    ensures
        state.find_workspace(state.workspaces@[i].id) == Some(state.workspaces@[i]),
        c.workspace == Some(state.workspaces@[i].id) ==> state.workspace_of(c) == Some(
            state.workspaces@[i],
        ),
        c.workspace is None ==> state.workspace_of(c) is None,
        state.workspaces@[i].focus_order@.len() == 0 ==> state.focused_descendant(
            state.workspaces@[i],
        ) is None,
        state.workspaces@[i].focus_order@.len() > 0 ==> {
            let first = state.workspaces@[i].focus_order@[0];
            match state.find_container(first) {
                Some(c) => match c.window {
                    Some(w) => state.focused_descendant(state.workspaces@[i]) == Some(
                        WindowRef { id: first, native: w.native },
                    ),
                    None => state.focused_descendant(state.workspaces@[i]) is None,
                },
                None => state.focused_descendant(state.workspaces@[i]) is None,
            }
        },
{
    let ids = workspace_ids(state.workspaces@);
    assert forall|j: int| 0 <= j < i implies ids[j] != state.workspaces@[i].id by {
        assert(state.workspaces@[j].id != state.workspaces@[i].id);
    }
    lemma_first_at(ids, state.workspaces@[i].id, i);
}

/// A monitor that is listed is found by its identity and as that of every
/// container that lies on it, unless one with the same identity is listed
/// before it.
pub proof fn law_listed_monitor_is_found(state: WmState, i: int, c: Container)
    requires
        0 <= i < state.monitors@.len(),
        forall|j: int| 0 <= j < i ==> (#[trigger] state.monitors@[j]).id != state.monitors@[i].id,
    ensures
        state.find_monitor(state.monitors@[i].id) == Some(state.monitors@[i]),
        c.monitor == Some(state.monitors@[i].id) ==> state.monitor_of(c) == Some(
            state.monitors@[i],
        ),
        c.monitor is None ==> state.monitor_of(c) is None,
{
    let ids = monitor_ids(state.monitors@);
    assert forall|j: int| 0 <= j < i implies ids[j] != state.monitors@[i].id by {
        assert(state.monitors@[j].id != state.monitors@[i].id);
    }
    lemma_first_at(ids, state.monitors@[i].id, i);
}

/// A window is found by its native handle, unless one with the same handle is
/// listed before it.
pub proof fn law_native_window_is_found(state: WmState, i: int, native: WindowId)
    requires
        0 <= i < state.containers@.len(),
        state.containers@[i].window matches Some(w) && w.native == native,
        forall|j: int|
            0 <= j < i ==> ((#[trigger] state.containers@[j]).window matches Some(w) ==> w.native
                != native),
    ensures
        state.find_native(native) == Some(state.containers@[i]),
{
    let natives = native_ids(state.containers@);
    assert forall|j: int| 0 <= j < i implies natives[j] != Some(native) by {
        assert(state.containers@[j].window matches Some(w) ==> w.native != native);
    }
    lemma_first_at(natives, Some(native), i);
}

/// Nothing is found that is not listed.
pub proof fn law_nothing_unlisted_is_found(state: WmState, id: ContainerId, native: WindowId)
    ensures
        (forall|j: int|
            0 <= j < state.containers@.len() ==> (#[trigger] state.containers@[j]).id != id)
            ==> state.find_container(id) is None && state.find_window(id) is None,
        (forall|j: int|
            0 <= j < state.workspaces@.len() ==> (#[trigger] state.workspaces@[j]).id != id)
            ==> state.find_workspace(id) is None,
        (forall|j: int|
            0 <= j < state.monitors@.len() ==> (#[trigger] state.monitors@[j]).id != id)
            ==> state.find_monitor(id) is None,
        (forall|j: int|
            0 <= j < state.containers@.len() ==> ((
            #[trigger] state.containers@[j]).window matches Some(w) ==> w.native != native))
            ==> state.find_native(native) is None,
        state.focused is None ==> state.find_focused() is None,
{
    let ids = container_ids(state.containers@);
    let workspaces = workspace_ids(state.workspaces@);
    let monitors = monitor_ids(state.monitors@);
    let natives = native_ids(state.containers@);
    if forall|j: int|
        0 <= j < state.containers@.len() ==> (#[trigger] state.containers@[j]).id != id {
        assert forall|j: int| 0 <= j < ids.len() implies ids[j] != id by {
            assert(state.containers@[j].id != id);
        }
        lemma_first_nowhere(ids, id);
    }
    if forall|j: int|
        0 <= j < state.workspaces@.len() ==> (#[trigger] state.workspaces@[j]).id != id {
        assert forall|j: int| 0 <= j < workspaces.len() implies workspaces[j] != id by {
            assert(state.workspaces@[j].id != id);
        }
        lemma_first_nowhere(workspaces, id);
    }
    if forall|j: int| 0 <= j < state.monitors@.len() ==> (#[trigger] state.monitors@[j]).id != id {
        assert forall|j: int| 0 <= j < monitors.len() implies monitors[j] != id by {
            assert(state.monitors@[j].id != id);
        }
        lemma_first_nowhere(monitors, id);
    }
    if forall|j: int|
        0 <= j < state.containers@.len() ==> ((#[trigger] state.containers@[j]).window matches Some(
            w,
        ) ==> w.native != native) {
        assert forall|j: int| 0 <= j < natives.len() implies natives[j] != Some(native) by {
            assert(state.containers@[j].window matches Some(w) ==> w.native != native);
        }
        lemma_first_nowhere(natives, Some(native));
    }
}

/// Every container that is a window is among the windows, by its identity and
/// its native handle, and nothing else is.
pub proof fn law_windows_are_the_containers_that_are_windows(state: WmState, window: WindowRef)
    ensures
        state.window_refs().contains(window) <==> exists|i: int|
            0 <= i < state.containers@.len() && stands_for(#[trigger] state.containers@[i], window),
{
    lemma_window_refs(state.containers@, window);
}

/// Whether a container is a window of the given identity and native handle.
pub open spec fn stands_for(c: Container, window: WindowRef) -> bool {
    c.id == window.id && (c.window matches Some(w) && w.native == window.native)
}

proof fn lemma_window_refs(containers: Seq<Container>, window: WindowRef)
    ensures
        window_refs_of(containers).contains(window) <==> exists|i: int|
            0 <= i < containers.len() && stands_for(#[trigger] containers[i], window),
    decreases containers.len(),
{
    if containers.len() > 0 {
        let rest = containers.drop_last();
        let refs = window_refs_of(rest);
        let all = window_refs_of(containers);
        lemma_window_refs(rest, window);
        assert(containers[containers.len() - 1] == containers.last());
        if all.contains(window) {
            let k = choose|k: int| 0 <= k < all.len() && all[k] == window;
            if k < refs.len() {
                assert(refs[k] == window);
                let i = choose|i: int| 0 <= i < rest.len() && stands_for(#[trigger] rest[i], window);
                assert(stands_for(containers[i], window));
            } else {
                assert(stands_for(containers[containers.len() - 1], window));
            }
        }
        if exists|i: int| 0 <= i < containers.len() && stands_for(#[trigger] containers[i], window) {
            let i = choose|i: int|
                0 <= i < containers.len() && stands_for(#[trigger] containers[i], window);
            if i < rest.len() {
                assert(stands_for(rest[i], window));
                let k = choose|k: int| 0 <= k < refs.len() && refs[k] == window;
                assert(all[k] == window);
            } else {
                assert(all[all.len() - 1] == window);
            }
        }
    }
}

} // verus!
