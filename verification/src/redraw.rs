//! What is done about each window that is redrawn or brought forward.

use vstd::prelude::*;

use crate::config::{HideMethod, UserConfig};
use crate::error::WmError;
use crate::fullscreen::{is_covering_in_range, mark_owed, sync_fullscreen_mark};
use crate::redraw_order::{
    dedup, forward_windows, sort_for_redraw, sorted_windows, unique, windows_to_bring_to_front,
};
use crate::reposition::{
    is_placement_in_range, next_placement_action, pending_in, pending_steps, placement_action,
    placement_fits, placement_of, reposition_window, Outcome, Placement, PlacementAction,
    PlacementCall, PlacementError, PlacementReplies, PlacementStep,
};
use crate::state::{
    container_ids, contains, with_display_state, Container, ContainerId, DisplayState, HideCorner,
    Monitor, TargetOs, Window, WindowRef, WindowState, WindowZOrder, WmState, Workspace,
};

verus! {

/// A window that is redrawn.
#[derive(PartialEq, Eq, Debug)]
pub struct Redraw {
    pub window: WindowRef,
    pub z_order: WindowZOrder,
    /// Display state that the window goes into.
    pub display_state: DisplayState,
    pub is_visible: bool,
    pub placement: Result<Placement, PlacementError>,
    /// Whether the taskbar is to show the window, where it has to be told.
    pub taskbar_visibility: Option<bool>,
}

/// What is done about a window.
#[derive(PartialEq, Eq, Debug)]
pub enum WindowUpdate {
    /// The window only changes its place in the stack.
    Restack { window: WindowRef, z_order: WindowZOrder },
    Redraw(Redraw),
}

/// What is done about windows, in order.
#[derive(Debug)]
pub struct RedrawPlan {
    pub updates: Vec<WindowUpdate>,
    /// Why nothing is done about the windows after those, if that is so.
    pub failure: Option<WmError>,
}

/// The display state that a window goes into as it is redrawn.
pub open spec fn next_display_state(current: DisplayState, is_displayed: bool) -> DisplayState {
    if current.visible() == is_displayed {
        current
    } else if is_displayed {
        DisplayState::Showing
    } else {
        DisplayState::Hiding
    }
}

/// The display state that a window goes into as it is redrawn, by whether its
/// workspace is displayed.
pub fn transition_display_state(current: DisplayState, is_displayed: bool) -> (r: DisplayState)
    ensures
        r == next_display_state(current, is_displayed),
{
    match (current, is_displayed) {
        (DisplayState::Hidden | DisplayState::Hiding, true) => DisplayState::Showing,
        (DisplayState::Shown | DisplayState::Showing, false) => DisplayState::Hiding,
        _ => current,
    }
}

/// Whether the taskbar has to be told whether it is to show a window.
pub open spec fn taskbar_told(
    hide_method: HideMethod,
    show_all_in_taskbar: bool,
    display_state: DisplayState,
    is_visible: bool,
) -> bool {
    &&& hide_method == HideMethod::Cloak
    &&& !show_all_in_taskbar
    &&& is_visible ==> display_state == DisplayState::Showing
}

/// Gets whether the taskbar has to be told whether it is to show a window.
///
/// Removal is reasserted for every redraw of a hidden cloaked window. Some
/// applications can add their taskbar tab again after the initial transition.
/// Visible windows are added only while they are being shown, so that a
/// general redraw doesn't reorder taskbar tabs.
pub fn should_sync_taskbar_visibility(
    hide_method: &HideMethod,
    show_all_in_taskbar: bool,
    display_state: &DisplayState,
    is_visible: bool,
) -> (r: bool)
    ensures
        r == taskbar_told(*hide_method, show_all_in_taskbar, *display_state, is_visible),
{
    *hide_method == HideMethod::Cloak && !show_all_in_taskbar && (!is_visible || *display_state
        == DisplayState::Showing)
}

/// Whether a window in the given state is shown above all other windows.
pub open spec fn shown_on_top(state: WindowState) -> bool {
    match state {
        WindowState::Floating(config) => config.shown_on_top,
        WindowState::Fullscreen(config) => config.shown_on_top,
        _ => false,
    }
}

/// Where a window goes in the stack of windows.
pub open spec fn z_order_of(
    state: WmState,
    id: ContainerId,
    window: Window,
    workspace: Workspace,
    comes_forward: bool,
) -> WindowZOrder {
    if shown_on_top(window.state) {
        WindowZOrder::TopMost
    } else {
        match state.focused_descendant(workspace) {
            Some(focused) => if comes_forward && focused.id != id {
                WindowZOrder::AfterWindow(focused.native)
            } else {
                WindowZOrder::Normal
            },
            None => WindowZOrder::Normal,
        }
    }
}

/// Decides where a window goes in the stack of windows.
fn z_order_for(
    state: &WmState,
    id: ContainerId,
    window: &Window,
    workspace: &Workspace,
    should_bring_to_front: bool,
) -> (r: WindowZOrder)
    ensures
        r == z_order_of(*state, id, *window, *workspace, should_bring_to_front),
{
    match window.state {
        WindowState::Floating(config) if config.shown_on_top => WindowZOrder::TopMost,
        WindowState::Fullscreen(config) if config.shown_on_top => WindowZOrder::TopMost,
        _ => {
            if !should_bring_to_front {
                return WindowZOrder::Normal;
            }
            match state.focused_window_of(workspace) {
                Some(focused) => if focused.id == id {
                    WindowZOrder::Normal
                } else {
                    WindowZOrder::AfterWindow(focused.native)
                },
                None => WindowZOrder::Normal,
            }
        },
    }
}

/// The corner of a monitor in which windows are put away.
pub open spec fn hide_corner_of(state: WmState, monitor: ContainerId) -> Option<HideCorner> {
    let ids = state.monitors_by_hide_corner@.map_values(|m: (ContainerId, HideCorner)| m.0);
    match ids.index_of_first(monitor) {
        Some(i) => Some(state.monitors_by_hide_corner@[i].1),
        None => None,
    }
}

/// The corner of a monitor in which windows are put away.
fn find_hide_corner(state: &WmState, monitor: ContainerId) -> (r: Option<HideCorner>)
    ensures
        r == hide_corner_of(*state, monitor),
{
    let ghost ids = state.monitors_by_hide_corner@.map_values(|m: (ContainerId, HideCorner)| m.0);
    let mut i: usize = 0;
    while i < state.monitors_by_hide_corner.len()
        invariant
            i <= state.monitors_by_hide_corner.len(),
            ids == state.monitors_by_hide_corner@.map_values(
                |m: (ContainerId, HideCorner)| m.0,
            ),
            forall|j: int| 0 <= j < i ==> ids[j] != monitor,
        decreases state.monitors_by_hide_corner.len() - i,
    {
        if state.monitors_by_hide_corner[i].0 == monitor {
            proof {
                crate::state::lemma_first_at(ids, monitor, i as int);
            }
            return Some(state.monitors_by_hide_corner[i].1);
        }
        i += 1;
    }
    proof {
        crate::state::lemma_first_nowhere(ids, monitor);
    }
    None
}

/// The windows that are redrawn.
pub open spec fn redrawn_windows(state: WmState) -> Seq<ContainerId> {
    state.pending_sync.windows_to_redraw@.filter(
        |id: ContainerId| state.find_window(id) is Some,
    )
}

/// How a window is redrawn, given what it belongs to.
pub open spec fn redraw_of(
    state: WmState,
    config: UserConfig,
    c: Container,
    workspace: Workspace,
    corner: HideCorner,
    z_order: WindowZOrder,
) -> Redraw {
    let w = c.window->0;
    let display_state = next_display_state(w.display_state, workspace.is_displayed);
    let is_visible = display_state.visible();
    Redraw {
        window: WindowRef { id: c.id, native: w.native },
        z_order,
        display_state,
        is_visible,
        placement: placement_of(state, c, corner, z_order, is_visible, config),
        taskbar_visibility: if state.os == TargetOs::Windows && taskbar_told(
            config.general.hide_method,
            config.general.show_all_in_taskbar,
            display_state,
            is_visible,
        ) {
            Some(is_visible)
        } else {
            None
        },
    }
}

/// What is done about a window, or why nothing can be.
pub open spec fn update_of(
    state: WmState,
    config: UserConfig,
    forward: Seq<ContainerId>,
    id: ContainerId,
) -> Result<Option<WindowUpdate>, WmError> {
    let c = state.find_container(id)->0;
    match (state.workspace_of(c), state.monitor_of(c)) {
        (None, _) => Err(WmError::WindowHasNoWorkspace),
        (Some(_), None) => Err(WmError::NoMonitor),
        (Some(workspace), Some(monitor)) => match hide_corner_of(state, monitor.id) {
            None => Err(WmError::MonitorNotInHideCornerMap),
            Some(corner) => {
                let z_order = z_order_of(
                    state,
                    id,
                    c.window->0,
                    workspace,
                    forward.contains(id),
                );
                if redrawn_windows(state).contains(id) {
                    Ok(
                        Some(
                            WindowUpdate::Redraw(
                                redraw_of(state, config, c, workspace, corner, z_order),
                            ),
                        ),
                    )
                } else if state.os == TargetOs::Windows && forward.contains(id) {
                    Ok(
                        Some(
                            WindowUpdate::Restack {
                                window: WindowRef { id, native: c.window->0.native },
                                z_order,
                            },
                        ),
                    )
                } else {
                    Ok(None)
                }
            },
        },
    }
}

/// Whether a window that is redrawn can be placed without leaving the
/// coordinate range.
pub open spec fn redraw_fits(state: WmState, config: UserConfig, id: ContainerId) -> bool {
    state.find_container(id) matches Some(c) ==> (c.window matches Some(w) ==> (
    state.workspace_of(c) matches Some(workspace) ==> (state.monitor_of(c) matches Some(monitor)
        ==> (hide_corner_of(state, monitor.id) matches Some(corner) ==> placement_fits(
        state,
        c,
        corner,
        next_display_state(w.display_state, workspace.is_displayed).visible(),
        config,
    )))))
}

/// Whether everything that is redrawn can be placed without leaving the
/// coordinate range.
pub open spec fn all_redraws_fit(state: WmState, config: UserConfig) -> bool {
    forall|id: ContainerId|
        state.pending_sync.windows_to_redraw@.contains(id) ==> #[trigger] redraw_fits(
            state,
            config,
            id,
        )
}

/// Whether everything that is redrawn can be placed without leaving the
/// coordinate range, where it comes to that: there is something with focus, and
/// it lies in a workspace.
pub open spec fn planned_redraws_fit(state: WmState, config: UserConfig) -> bool {
    state.find_focused() matches Some(focused) ==> (state.workspace_of(focused) is Some
        ==> all_redraws_fit(state, config))
}

/// Whether a window that is redrawn can be placed without leaving the
/// coordinate range.
fn is_redraw_in_range(state: &WmState, config: &UserConfig, id: ContainerId) -> (r: bool)
    ensures
        r == redraw_fits(*state, *config, id),
{
    let container = match state.container(id) {
        Some(container) => container,
        None => return true,
    };
    let window = match &container.window {
        Some(window) => window,
        None => return true,
    };
    match (state.containing_workspace(container), state.containing_monitor(container)) {
        (Some(workspace), Some(monitor)) => match find_hide_corner(state, monitor.id) {
            Some(hide_corner) => is_placement_in_range(
                container,
                hide_corner,
                transition_display_state(
                    window.display_state,
                    workspace.is_displayed,
                ).is_visible(),
                state,
                config,
            ),
            None => true,
        },
        _ => true,
    }
}

/// Whether everything that is redrawn can be placed without leaving the
/// coordinate range.
pub fn are_redraws_in_range(state: &WmState, config: &UserConfig) -> (r: bool)
    ensures
        r == all_redraws_fit(*state, *config),
{
    let windows = &state.pending_sync.windows_to_redraw;
    let mut i: usize = 0;
    while i < windows.len()
        invariant
            i <= windows.len(),
            windows@ == state.pending_sync.windows_to_redraw@,
            forall|j: int| 0 <= j < i ==> redraw_fits(*state, *config, #[trigger] windows@[j]),
        decreases windows.len() - i,
    {
        if !is_redraw_in_range(state, config, windows[i]) {
            assert(windows@.contains(windows@[i as int]));
            return false;
        }
        i += 1;
    }
    true
}

/// Whether everything that is redrawn can be placed without leaving the
/// coordinate range, where it comes to that.
pub fn are_planned_redraws_in_range(state: &WmState, config: &UserConfig) -> (r: bool)
    ensures
        r == planned_redraws_fit(*state, *config),
{
    match state.focused_container() {
        Some(focused) => state.containing_workspace(focused).is_none() || are_redraws_in_range(
            state,
            config,
        ),
        None => true,
    }
}

/// Decides what is done about a window.
fn plan_update(
    state: &WmState,
    config: &UserConfig,
    windows_to_redraw: &Vec<ContainerId>,
    windows_to_bring_to_front: &Vec<ContainerId>,
    id: ContainerId,
) -> (r: Result<Option<WindowUpdate>, WmError>)
    requires
        windows_to_redraw@ == redrawn_windows(*state),
        state.find_window(id) is Some,
        windows_to_redraw@.contains(id) ==> redraw_fits(*state, *config, id),
    ensures
        r == update_of(*state, *config, windows_to_bring_to_front@, id),
{
    let container = match state.container(id) {
        Some(container) => container,
        None => return Ok(None),
    };
    let window = match &container.window {
        Some(window) => window,
        None => return Ok(None),
    };
    let should_bring_to_front = contains(windows_to_bring_to_front, id);
    let workspace = match state.containing_workspace(container) {
        Some(workspace) => workspace,
        None => return Err(WmError::WindowHasNoWorkspace),
    };
    let monitor = match state.containing_monitor(container) {
        Some(monitor) => monitor,
        None => return Err(WmError::NoMonitor),
    };
    let hide_corner: HideCorner = match find_hide_corner(state, monitor.id) {
        Some(hide_corner) => hide_corner,
        None => return Err(WmError::MonitorNotInHideCornerMap),
    };
    let z_order = z_order_for(state, id, window, workspace, should_bring_to_front);
    let window_ref = WindowRef { id, native: window.native };

    // Skip updating the window's position if it only required a z-order
    // change.
    if !contains(windows_to_redraw, id) {
        // There is no robust way of setting the z-order elsewhere.
        if should_bring_to_front && state.os == TargetOs::Windows {
            return Ok(Some(WindowUpdate::Restack { window: window_ref, z_order }));
        }
        return Ok(None);
    }
    let display_state = transition_display_state(window.display_state, workspace.is_displayed);
    let is_visible = display_state.is_visible();
    let placement = reposition_window(container, hide_corner, z_order, is_visible, state, config);
    let taskbar_visibility = if state.os == TargetOs::Windows && should_sync_taskbar_visibility(
        &config.general.hide_method,
        config.general.show_all_in_taskbar,
        &display_state,
        is_visible,
    ) {
        Some(is_visible)
    } else {
        None
    };
    Ok(
        Some(
            WindowUpdate::Redraw(
                Redraw {
                    window: window_ref,
                    z_order,
                    display_state,
                    is_visible,
                    placement,
                    taskbar_visibility,
                },
            ),
        ),
    )
}

/// What is done about some windows, one after the other, up to the first about
/// which nothing can be done.
pub open spec fn updates_of(
    state: WmState,
    config: UserConfig,
    forward: Seq<ContainerId>,
    windows: Seq<ContainerId>,
) -> (Seq<WindowUpdate>, Option<WmError>)
    decreases windows.len(),
{
    if windows.len() == 0 {
        (Seq::empty(), None)
    } else {
        let (updates, failure) = updates_of(state, config, forward, windows.drop_last());
        if failure is Some {
            (updates, failure)
        } else {
            match update_of(state, config, forward, windows.last()) {
                Ok(Some(update)) => (updates.push(update), None),
                Ok(None) => (updates, None),
                Err(e) => (updates, Some(e)),
            }
        }
    }
}

/// The windows that are redrawn or brought forward, in the order in which they
/// are updated.
pub open spec fn update_order(state: WmState, forward: Seq<ContainerId>) -> Seq<ContainerId> {
    sorted_windows(state, unique(redrawn_windows(state) + forward)).reverse()
}

/// What is done about the windows that are redrawn or brought forward.
pub open spec fn redraw_plan(
    state: WmState,
    config: UserConfig,
    focused_workspace: ContainerId,
) -> (Seq<WindowUpdate>, Option<WmError>) {
    let forward = forward_windows(state, focused_workspace);
    updates_of(state, config, forward, update_order(state, forward))
}

/// The containers once each window that is redrawn is in its new display
/// state.
pub open spec fn displayed(
    containers: Seq<Container>,
    updates: Seq<WindowUpdate>,
) -> Seq<Container>
    decreases updates.len(),
{
    if updates.len() == 0 {
        containers
    } else {
        let before = displayed(containers, updates.drop_last());
        match updates.last() {
            WindowUpdate::Redraw(redraw) => match container_ids(before).index_of_first(
                redraw.window.id,
            ) {
                Some(i) => before.update(i, with_display_state(before[i], redraw.display_state)),
                None => before,
            },
            WindowUpdate::Restack { .. } => before,
        }
    }
}

/// The windows that are redrawn.
fn find_redrawn_windows(state: &WmState) -> (r: Vec<ContainerId>)
    ensures
        r@ == redrawn_windows(*state),
{
    let ghost wanted = |id: ContainerId| state.find_window(id) is Some;
    let ghost all = state.pending_sync.windows_to_redraw@;
    let mut r: Vec<ContainerId> = Vec::new();
    proof {
        reveal(Seq::filter);
        assert(r@ =~= all.take(0).filter(wanted));
    }
    let mut i: usize = 0;
    while i < state.pending_sync.windows_to_redraw.len()
        invariant
            i <= all.len(),
            all == state.pending_sync.windows_to_redraw@,
            wanted == (|id: ContainerId| state.find_window(id) is Some),
            r@ == all.take(i as int).filter(wanted),
        decreases all.len() - i,
    {
        let id: ContainerId = state.pending_sync.windows_to_redraw[i];
        proof {
            assert(all.take(i + 1) =~= all.take(i as int).push(id));
            all.take(i as int).lemma_filter_push(id, wanted);
        }
        let is_window = match state.container(id) {
            Some(c) => c.window.is_some(),
            None => false,
        };
        if is_window {
            r.push(id);
        }
        i += 1;
    }
    proof {
        assert(all.take(i as int) =~= all);
    }
    r
}

/// The windows brought forward in some workspaces are windows.
proof fn lemma_forward_are_windows(
    state: WmState,
    workspaces: Seq<ContainerId>,
    id: ContainerId,
)
    requires
        crate::redraw_order::forward_in_all(state, workspaces).contains(id),
    ensures
        state.find_window(id) is Some,
    decreases workspaces.len(),
{
    if workspaces.len() > 0 {
        let rest = crate::redraw_order::forward_in_all(state, workspaces.drop_last());
        let all = crate::redraw_order::forward_in_all(state, workspaces);
        let k = choose|k: int| 0 <= k < all.len() && all[k] == id;
        if k < rest.len() {
            assert(rest[k] == id);
            lemma_forward_are_windows(state, workspaces.drop_last(), id);
        } else {
            let workspace = state.find_workspace(workspaces.last())->0;
            let focused = state.find_window(state.focused_descendant(workspace)->0.id)->0.state;
            let wanted = |id: ContainerId|
                crate::redraw_order::comes_forward(state, id, focused);
            let here = workspace.descendants@.filter(wanted);
            assert(here[k - rest.len()] == id);
            workspace.descendants@.lemma_filter_pred(wanted, k - rest.len());
        }
    }
}

/// Every window that is updated is a window, and is redrawn only if it was
/// queued for that.
proof fn lemma_updated_are_windows(state: WmState, focused_workspace: ContainerId, id: ContainerId)
    requires
        ({
            let forward = forward_windows(state, focused_workspace);
            unique(redrawn_windows(state) + forward).contains(id)
        }),
    ensures
        state.find_window(id) is Some,
{
    let forward = forward_windows(state, focused_workspace);
    let redrawn = redrawn_windows(state);
    crate::redraw_order::lemma_unique(redrawn + forward);
    assert((redrawn + forward).contains(id));
    let k = choose|k: int| 0 <= k < (redrawn + forward).len() && (redrawn + forward)[k] == id;
    if k < redrawn.len() {
        state.pending_sync.windows_to_redraw@.lemma_filter_pred(
            |id: ContainerId| state.find_window(id) is Some,
            k,
        );
    } else {
        assert(forward[k - redrawn.len()] == id);
        lemma_forward_are_windows(
            state,
            crate::redraw_order::restacked_workspaces(state, focused_workspace),
            id,
        );
    }
}

/// A window that is redrawn was queued for that.
proof fn lemma_redrawn_were_queued(state: WmState, id: ContainerId)
    requires
        redrawn_windows(state).contains(id),
    ensures
        state.pending_sync.windows_to_redraw@.contains(id),
{
    state.pending_sync.windows_to_redraw@.lemma_filter_contains_rev(
        |id: ContainerId| state.find_window(id) is Some,
        id,
    );
}

/// Sorting windows neither loses nor adds any.
proof fn lemma_sorted_windows_contain(state: WmState, windows: Seq<ContainerId>, id: ContainerId)
    requires
        windows.no_duplicates(),
        sorted_windows(state, windows).contains(id),
    ensures
        windows.contains(id),
{
    crate::redraw_order::law_windows_are_revealed_before_others_are_hidden(state, windows);
    let sorted = sorted_windows(state, windows);
    sorted.lemma_reverse_to_multiset();
    broadcast use vstd::seq_lib::group_to_multiset_ensures;
    assert(sorted.to_multiset().count(id) > 0);
    assert(windows.to_multiset().count(id) > 0);
}

/// Decides what is done about the windows that are redrawn or brought forward,
/// and puts each window that is redrawn into its new display state.
pub fn redraw_containers(state: &mut WmState, config: &UserConfig) -> (r: Result<
    RedrawPlan,
    WmError,
>)
    requires
        planned_redraws_fit(*old(state), *config),
    ensures
        *final(state) == (WmState { containers: final(state).containers, ..*old(state) }),
        match old(state).find_focused() {
            None => {
                &&& r matches Err(e) && e == WmError::NoFocusedContainer
                &&& *final(state) == *old(state)
            },
            Some(focused) => match old(state).workspace_of(focused) {
                None => {
                    &&& r matches Err(e) && e == WmError::NoWorkspace
                    &&& *final(state) == *old(state)
                },
                Some(workspace) => {
                    &&& r matches Ok(plan)
                    &&& (plan.updates@, plan.failure) == redraw_plan(
                        *old(state),
                        *config,
                        workspace.id,
                    )
                    &&& final(state).containers@ == displayed(
                        old(state).containers@,
                        plan.updates@,
                    )
                },
            },
        },
{
    let focused_container = match state.focused_container() {
        Some(focused_container) => focused_container,
        None => return Err(WmError::NoFocusedContainer),
    };
    let windows_to_redraw = find_redrawn_windows(state);
    let windows_to_bring_to_front = match windows_to_bring_to_front(focused_container, state) {
        Ok(windows) => windows,
        Err(e) => return Err(e),
    };
    let ghost focused_workspace = state.workspace_of(*focused_container)->0.id;
    let ghost forward = windows_to_bring_to_front@;
    let ghost before = *state;
    let mut listed: Vec<ContainerId> = windows_to_redraw.clone();
    let mut k: usize = 0;
    proof {
        assert(listed@ =~= windows_to_redraw@ + forward.take(0));
    }
    while k < windows_to_bring_to_front.len()
        invariant
            k <= windows_to_bring_to_front.len(),
            forward == windows_to_bring_to_front@,
            listed@ == windows_to_redraw@ + forward.take(k as int),
        decreases windows_to_bring_to_front.len() - k,
    {
        listed.push(windows_to_bring_to_front[k]);
        k += 1;
        proof {
            assert(listed@ =~= windows_to_redraw@ + forward.take(k as int));
        }
    }
    proof {
        assert(forward.take(k as int) =~= forward);
        crate::redraw_order::lemma_unique(listed@);
    }
    let windows = dedup(&listed);
    let sorted = sort_for_redraw(state, &windows);
    let ghost order = sorted@.reverse();
    let mut updates: Vec<WindowUpdate> = Vec::new();
    let mut failure: Option<WmError> = None;
    let mut i: usize = 0;
    while i < sorted.len() && failure.is_none()
        invariant
            i <= sorted.len(),
            *state == before,
            order == sorted@.reverse(),
            forward == windows_to_bring_to_front@,
            forward == forward_windows(before, focused_workspace),
            windows@ == unique(redrawn_windows(before) + forward),
            windows@.no_duplicates(),
            sorted@ == sorted_windows(before, windows@),
            windows_to_redraw@ == redrawn_windows(before),
            all_redraws_fit(before, *config),
            (updates@, failure) == updates_of(before, *config, forward, order.take(i as int)),
        decreases sorted.len() - i,
    {
        let id: ContainerId = sorted[sorted.len() - 1 - i];
        proof {
            assert(order.take(i + 1).drop_last() =~= order.take(i as int));
            assert(order.take(i + 1).last() == id);
            assert(sorted@.contains(id));
            lemma_sorted_windows_contain(before, windows@, id);
            lemma_updated_are_windows(before, focused_workspace, id);
            if windows_to_redraw@.contains(id) {
                lemma_redrawn_were_queued(before, id);
                assert(redraw_fits(before, *config, id));
            }
        }
        match plan_update(state, config, &windows_to_redraw, &windows_to_bring_to_front, id) {
            Ok(Some(update)) => updates.push(update),
            Ok(None) => {},
            Err(e) => failure = Some(e),
        }
        i += 1;
    }
    proof {
        lemma_failure_ends_the_updates(before, *config, forward, order, i as int);
    }
    let mut j: usize = 0;
    while j < updates.len()
        invariant
            j <= updates.len(),
            *state == (WmState { containers: state.containers, ..before }),
            state.containers@ == displayed(before.containers@, updates@.take(j as int)),
        decreases updates.len() - j,
    {
        proof {
            assert(updates@.take(j + 1).drop_last() =~= updates@.take(j as int));
        }
        if let WindowUpdate::Redraw(redraw) = &updates[j] {
            state.set_display_state(redraw.window.id, redraw.display_state);
        }
        j += 1;
    }
    proof {
        assert(updates@.take(j as int) =~= updates@);
    }
    Ok(RedrawPlan { updates, failure })
}

/// Once nothing can be done about a window, nothing is done about those after
/// it.
proof fn lemma_failure_ends_the_updates(
    state: WmState,
    config: UserConfig,
    forward: Seq<ContainerId>,
    order: Seq<ContainerId>,
    i: int,
)
    requires
        0 <= i <= order.len(),
        i == order.len() || updates_of(state, config, forward, order.take(i)).1 is Some,
    ensures
        updates_of(state, config, forward, order) == updates_of(
            state,
            config,
            forward,
            order.take(i),
        ),
    decreases order.len(),
{
    if i == order.len() {
        assert(order.take(i) =~= order);
    } else {
        assert(order.drop_last().take(i) =~= order.take(i));
        lemma_failure_ends_the_updates(state, config, forward, order.drop_last(), i);
    }
}

/// What came of the calls made about a window so far.
#[derive(PartialEq, Eq, Structural, Clone, Copy, Debug)]
pub struct UpdateReplies {
    pub restack: Outcome,
    pub placement: PlacementReplies,
    pub mark: Outcome,
    pub taskbar_visibility: Outcome,
}

impl UpdateReplies {
    /// No call has been made.
    pub fn new() -> (r: UpdateReplies)
        ensures
            r.restack is Pending,
            r.mark is Pending,
            r.taskbar_visibility is Pending,
            forall|step: PlacementStep| #[trigger] r.placement.at(step) == Outcome::Pending,
    {
        UpdateReplies {
            restack: Outcome::Pending,
            placement: PlacementReplies::new(),
            mark: Outcome::Pending,
            taskbar_visibility: Outcome::Pending,
        }
    }
}

/// What to do next about a window.
#[derive(PartialEq, Eq, Structural, Clone, Copy, Debug)]
pub enum UpdateAction {
    SetZOrder(WindowZOrder),
    /// Make a call that places the window, and record what comes of it under
    /// the step.
    Place(PlacementStep, PlacementCall),
    /// Tell the shell whether the window is fullscreen.
    MarkFullscreen(bool),
    SetTaskbarVisibility(bool),
    Done,
}

/// The next call that places a window, if there is one.
pub open spec fn placing_call(redraw: Redraw, replies: PlacementReplies) -> Option<
    (PlacementStep, PlacementCall),
> {
    match redraw.placement {
        Ok(placement) => match placement_action(placement, replies) {
            PlacementAction::Call(step, call) => Some((step, call)),
            _ => None,
        },
        Err(_) => None,
    }
}

/// What the shell has to be told of the window that has the given identity.
pub open spec fn shell_owed(state: WmState, id: ContainerId) -> Option<bool> {
    match state.find_container(id) {
        Some(c) => if state.os == TargetOs::Windows {
            mark_owed(state, c)
        } else {
            None
        },
        None => None,
    }
}

/// What is done next about a window, given what came of the calls so far.
pub open spec fn update_action(
    update: WindowUpdate,
    replies: UpdateReplies,
    state: WmState,
) -> UpdateAction {
    match update {
        WindowUpdate::Restack { z_order, .. } => if replies.restack is Pending {
            UpdateAction::SetZOrder(z_order)
        } else {
            UpdateAction::Done
        },
        WindowUpdate::Redraw(redraw) => {
            let placing = placing_call(redraw, replies.placement);
            let owed = shell_owed(state, redraw.window.id);
            if let Some((step, call)) = placing {
                UpdateAction::Place(step, call)
            } else if owed is Some && replies.mark is Pending {
                UpdateAction::MarkFullscreen(owed->0)
            } else if redraw.taskbar_visibility is Some && replies.taskbar_visibility is Pending {
                UpdateAction::SetTaskbarVisibility(redraw.taskbar_visibility->0)
            } else {
                UpdateAction::Done
            }
        },
    }
}

/// Whether it can be told what to do next about a window: where that depends
/// on whether it covers the taskbar, that can be told.
pub open spec fn update_fits(update: WindowUpdate, replies: UpdateReplies, state: WmState) -> bool {
    update matches WindowUpdate::Redraw(redraw) ==> {
        placing_call(redraw, replies.placement) is None && state.os == TargetOs::Windows
            && replies.mark is Pending ==> (state.find_container(redraw.window.id) matches Some(c)
            ==> state.covering_fits(c))
    }
}

/// Whether it can be told what to do next about a window without leaving the
/// coordinate range.
pub fn is_update_in_range(update: &WindowUpdate, replies: &UpdateReplies, state: &WmState) -> (r:
    bool)
    ensures
        r == update_fits(*update, *replies, *state),
{
    let redraw = match update {
        WindowUpdate::Restack { .. } => return true,
        WindowUpdate::Redraw(redraw) => redraw,
    };
    if state.os != TargetOs::Windows || !matches!(replies.mark, Outcome::Pending) {
        return true;
    }
    if let Ok(placement) = &redraw.placement {
        if let PlacementAction::Call(_, _) = next_placement_action(placement, &replies.placement) {
            return true;
        }
    }
    match state.container(redraw.window.id) {
        Some(container) => is_covering_in_range(container, state),
        None => true,
    }
}

/// Decides what to do next about a window, given what came of the calls so
/// far.
///
/// A window that could not be placed is still marked, and its tab in the
/// taskbar still shown or taken away.
pub fn next_update_action(update: &WindowUpdate, replies: &UpdateReplies, state: &WmState) -> (r:
    UpdateAction)
    requires
        update_fits(*update, *replies, *state),
    ensures
        r == update_action(*update, *replies, *state),
{
    let redraw = match update {
        WindowUpdate::Restack { z_order, .. } => {
            return match replies.restack {
                Outcome::Pending => UpdateAction::SetZOrder(*z_order),
                _ => UpdateAction::Done,
            };
        },
        WindowUpdate::Redraw(redraw) => redraw,
    };
    if let Ok(placement) = &redraw.placement {
        if let PlacementAction::Call(step, call) = next_placement_action(
            placement,
            &replies.placement,
        ) {
            return UpdateAction::Place(step, call);
        }
    }
    if state.os == TargetOs::Windows && matches!(replies.mark, Outcome::Pending) {
        if let Some(container) = state.container(redraw.window.id) {
            if let Some(is_fullscreen) = sync_fullscreen_mark(container, state) {
                return UpdateAction::MarkFullscreen(is_fullscreen);
            }
        }
    }
    if let Some(is_visible) = redraw.taskbar_visibility {
        if matches!(replies.taskbar_visibility, Outcome::Pending) {
            return UpdateAction::SetTaskbarVisibility(is_visible);
        }
    }
    UpdateAction::Done
}

/// No call about a window is made twice, and each is made in its turn: the
/// shell is told only once the window is placed or given up.
pub proof fn law_update_calls_come_in_turn(
    update: WindowUpdate,
    replies: UpdateReplies,
    state: WmState,
)
    ensures
        match update_action(update, replies, state) {
            UpdateAction::SetZOrder(_) => update is Restack && replies.restack is Pending,
            UpdateAction::Place(step, call) => {
                &&& update matches WindowUpdate::Redraw(redraw)
                &&& placing_call(redraw, replies.placement) == Some((step, call))
                &&& replies.placement.at(step) is Pending
            },
            UpdateAction::MarkFullscreen(is_fullscreen) => {
                &&& update matches WindowUpdate::Redraw(redraw)
                &&& placing_call(redraw, replies.placement) is None
                &&& replies.mark is Pending
                &&& shell_owed(state, redraw.window.id) == Some(is_fullscreen)
            },
            UpdateAction::SetTaskbarVisibility(is_visible) => {
                &&& update matches WindowUpdate::Redraw(redraw)
                &&& placing_call(redraw, replies.placement) is None
                &&& replies.mark is Pending ==> shell_owed(state, redraw.window.id) is None
                &&& replies.taskbar_visibility is Pending
                &&& redraw.taskbar_visibility == Some(is_visible)
            },
            UpdateAction::Done => true,
        },
{
    if let WindowUpdate::Redraw(redraw) = update {
        if let Ok(placement) = redraw.placement {
            crate::reposition::lemma_next_step_is_pending(placement, replies.placement);
        }
    }
}

/// Whether `after` is `before` but for what came of an action.
pub open spec fn action_recorded(
    action: UpdateAction,
    before: UpdateReplies,
    after: UpdateReplies,
) -> bool {
    match action {
        UpdateAction::SetZOrder(_) => {
            &&& after == (UpdateReplies { restack: after.restack, ..before })
            &&& !(after.restack is Pending)
        },
        UpdateAction::Place(step, _) => {
            &&& after == (UpdateReplies { placement: after.placement, ..before })
            &&& before.placement.recorded(step, after.placement.at(step), after.placement)
            &&& !(after.placement.at(step) is Pending)
        },
        UpdateAction::MarkFullscreen(_) => {
            &&& after == (UpdateReplies { mark: after.mark, ..before })
            &&& !(after.mark is Pending)
        },
        UpdateAction::SetTaskbarVisibility(_) => {
            &&& after == (UpdateReplies { taskbar_visibility: after.taskbar_visibility, ..before })
            &&& !(after.taskbar_visibility is Pending)
        },
        UpdateAction::Done => after == before,
    }
}

/// Number of calls that have not been made about a window.
pub open spec fn pending_calls(replies: UpdateReplies) -> nat {
    pending_steps(replies.placement) + pending_in(
        seq![replies.restack, replies.mark, replies.taskbar_visibility],
    )
}

/// Whatever comes of the calls, each leaves one fewer to make, so that what is
/// done about a window comes to an end.
pub proof fn law_updates_come_to_an_end(
    update: WindowUpdate,
    before: UpdateReplies,
    state: WmState,
    after: UpdateReplies,
)
    requires
        action_recorded(update_action(update, before, state), before, after),
    ensures
        update_action(update, before, state) is Done || pending_calls(after) == pending_calls(
            before,
        ) - 1,
{
    law_update_calls_come_in_turn(update, before, state);
    let others = seq![before.restack, before.mark, before.taskbar_visibility];
    let others_after = seq![after.restack, after.mark, after.taskbar_visibility];
    match update_action(update, before, state) {
        UpdateAction::SetZOrder(_) => {
            assert(others_after =~= others.update(0, after.restack));
            crate::reposition::lemma_one_pending_fewer(others, 0, after.restack);
        },
        UpdateAction::Place(step, _) => {
            crate::reposition::lemma_one_step_fewer(
                before.placement,
                step,
                after.placement.at(step),
                after.placement,
            );
        },
        UpdateAction::MarkFullscreen(_) => {
            assert(others_after =~= others.update(1, after.mark));
            crate::reposition::lemma_one_pending_fewer(others, 1, after.mark);
        },
        UpdateAction::SetTaskbarVisibility(_) => {
            assert(others_after =~= others.update(2, after.taskbar_visibility));
            crate::reposition::lemma_one_pending_fewer(others, 2, after.taskbar_visibility);
        },
        UpdateAction::Done => {},
    }
}

/// The window that an update is about.
pub open spec fn updated_window(update: WindowUpdate) -> ContainerId {
    match update {
        WindowUpdate::Restack { window, .. } => window.id,
        WindowUpdate::Redraw(redraw) => redraw.window.id,
    }
}

/// A container that is found has the identity that it was looked up by.
proof fn lemma_found_container(state: WmState, id: ContainerId)
    ensures
        state.find_container(id) matches Some(c) ==> c.id == id,
{
    container_ids(state.containers@).index_of_first_ensures(id);
}

/// Every update is what is done about one of the windows, and no window is
/// updated twice. Unless nothing can be done about one of them, each window
/// that something is done about is updated.
proof fn lemma_updates(
    state: WmState,
    config: UserConfig,
    forward: Seq<ContainerId>,
    windows: Seq<ContainerId>,
)
    requires
        windows.no_duplicates(),
        forall|id: ContainerId|
            windows.contains(id) ==> #[trigger] state.find_window(id) is Some,
    ensures
        ({
            let (updates, failure) = updates_of(state, config, forward, windows);
            &&& forall|k: int|
                0 <= k < updates.len() ==> {
                    &&& windows.contains(updated_window(#[trigger] updates[k]))
                    &&& update_of(state, config, forward, updated_window(updates[k])) == Ok::<
                        Option<WindowUpdate>,
                        WmError,
                    >(Some(updates[k]))
                }
            &&& forall|k: int, l: int|
                0 <= k < l < updates.len() ==> updated_window(#[trigger] updates[k])
                    != updated_window(#[trigger] updates[l])
            &&& failure is None ==> forall|id: ContainerId| #[trigger]
                windows.contains(id) ==> match update_of(state, config, forward, id) {
                    Ok(Some(update)) => updates.contains(update),
                    Ok(None) => true,
                    Err(_) => false,
                }
            &&& failure matches Some(e) ==> exists|id: ContainerId| #[trigger]
                windows.contains(id) && update_of(state, config, forward, id) == Err::<
                    Option<WindowUpdate>,
                    WmError,
                >(e)
        }),
    decreases windows.len(),
{
    if windows.len() > 0 {
        let rest = windows.drop_last();
        let last = windows.last();
        assert forall|id: ContainerId| rest.contains(id) implies windows.contains(id) by {
            let k = choose|k: int| 0 <= k < rest.len() && rest[k] == id;
            assert(windows[k] == id);
        }
        assert(windows[windows.len() - 1] == last);
        assert(windows.contains(last));
        assert forall|id: ContainerId| rest.contains(id) implies #[trigger] state.find_window(
            id,
        ) is Some by {
            assert(windows.contains(id));
        }
        lemma_updates(state, config, forward, rest);
        lemma_found_container(state, last);
        let (before, failed) = updates_of(state, config, forward, rest);
        let (updates, failure) = updates_of(state, config, forward, windows);
        assert(!rest.contains(last));
        assert(state.find_window(last) is Some);
        if failed is None {
            assert forall|id: ContainerId| windows.contains(id) implies rest.contains(id) || id
                == last by {
                let k = choose|k: int| 0 <= k < windows.len() && windows[k] == id;
                if k < rest.len() {
                    assert(rest[k] == id);
                }
            }
            if let Ok(Some(update)) = update_of(state, config, forward, last) {
                assert(updates == before.push(update));
                assert(updates[updates.len() - 1] == update);
                assert(updated_window(update) == last);
                assert forall|u: WindowUpdate| before.contains(u) implies #[trigger]
                    updates.contains(u) by {
                    let k = choose|k: int| 0 <= k < before.len() && before[k] == u;
                    assert(updates[k] == u);
                }
                assert(updates.contains(update));
            }
        }
    }
}

/// Unless a window has no workspace, no monitor, or no corner to be put away
/// in, every window that was queued is redrawn, just once, and every update is
/// of a window that was queued for it or is brought forward.
pub proof fn law_every_queued_window_is_redrawn(
    state: WmState,
    config: UserConfig,
    focused_workspace: ContainerId,
    id: ContainerId,
)
    requires
        redrawn_windows(state).contains(id),
        redraw_plan(state, config, focused_workspace).1 is None,
    ensures
        ({
            let updates = redraw_plan(state, config, focused_workspace).0;
            &&& exists|k: int|
                0 <= k < updates.len() && updated_window(#[trigger] updates[k]) == id
                    && updates[k] is Redraw
            &&& forall|k: int, l: int|
                0 <= k < l < updates.len() ==> updated_window(#[trigger] updates[k])
                    != updated_window(#[trigger] updates[l])
        }),
{
    let forward = forward_windows(state, focused_workspace);
    let redrawn = redrawn_windows(state);
    let windows = unique(redrawn + forward);
    let order = update_order(state, forward);
    let updates = redraw_plan(state, config, focused_workspace).0;
    lemma_update_order(state, focused_workspace);
    let k = choose|k: int| 0 <= k < redrawn.len() && redrawn[k] == id;
    assert((redrawn + forward)[k] == id);
    crate::redraw_order::lemma_unique(redrawn + forward);
    assert((redrawn + forward).contains(id));
    assert(windows.contains(id));
    assert(order.contains(id));
    lemma_updates(state, config, forward, order);
    lemma_found_container(state, id);
    let update = update_of(state, config, forward, id)->Ok_0->0;
    assert(updates.contains(update));
    let k = choose|k: int| 0 <= k < updates.len() && updates[k] == update;
    assert(updated_window(updates[k]) == id);
}

/// The windows are updated each once, and are windows.
proof fn lemma_update_order(state: WmState, focused_workspace: ContainerId)
    ensures
        ({
            let forward = forward_windows(state, focused_workspace);
            let order = update_order(state, forward);
            &&& order.no_duplicates()
            &&& forall|id: ContainerId| #[trigger]
                order.contains(id) <==> unique(redrawn_windows(state) + forward).contains(id)
            &&& forall|id: ContainerId|
                order.contains(id) ==> #[trigger] state.find_window(id) is Some
        }),
{
    let forward = forward_windows(state, focused_workspace);
    let windows = unique(redrawn_windows(state) + forward);
    let order = update_order(state, forward);
    crate::redraw_order::lemma_unique(redrawn_windows(state) + forward);
    crate::redraw_order::law_windows_are_revealed_before_others_are_hidden(state, windows);
    windows.lemma_multiset_has_no_duplicates();
    order.lemma_multiset_has_no_duplicates_conv();
    broadcast use vstd::seq_lib::group_to_multiset_ensures;
    assert forall|id: ContainerId| #[trigger] order.contains(id) <==> windows.contains(id) by {
        assert(order.contains(id) <==> order.to_multiset().count(id) > 0);
        assert(windows.contains(id) <==> windows.to_multiset().count(id) > 0);
    }
    assert forall|id: ContainerId| order.contains(id) implies #[trigger] state.find_window(
        id,
    ) is Some by {
        assert(windows.contains(id));
        lemma_updated_are_windows(state, focused_workspace, id);
    }
}

/// A window is redrawn as visible just if its workspace is displayed. Its
/// display state changes only where it was at odds with that.
pub proof fn law_redraw_follows_the_workspace(
    state: WmState,
    config: UserConfig,
    forward: Seq<ContainerId>,
    id: ContainerId,
)
    requires
        update_of(state, config, forward, id) matches Ok(Some(WindowUpdate::Redraw(_))),
    ensures
        ({
            let c = state.find_container(id)->0;
            let redraw = update_of(state, config, forward, id)->Ok_0->0->Redraw_0;
            let is_displayed = state.workspace_of(c)->0.is_displayed;
            &&& redraw.is_visible == is_displayed
            &&& redraw.display_state.visible() == is_displayed
            &&& c.window->0.display_state.visible() == is_displayed ==> redraw.display_state
                == c.window->0.display_state
        }),
{
}

/// Windows are updated in the order in which they are listed.
proof fn lemma_updates_in_order(
    state: WmState,
    config: UserConfig,
    forward: Seq<ContainerId>,
    windows: Seq<ContainerId>,
    k: int,
    l: int,
)
    requires
        forall|id: ContainerId|
            windows.contains(id) ==> #[trigger] state.find_window(id) is Some,
        0 <= k < l < updates_of(state, config, forward, windows).0.len(),
    ensures
        ({
            let updates = updates_of(state, config, forward, windows).0;
            exists|i: int, j: int|
                0 <= i < j < windows.len() && #[trigger] windows[i] == updated_window(updates[k])
                    && #[trigger] windows[j] == updated_window(updates[l])
        }),
    decreases windows.len(),
{
    let rest = windows.drop_last();
    let last = windows.last();
    assert forall|id: ContainerId| rest.contains(id) implies #[trigger] state.find_window(
        id,
    ) is Some by {
        let n = choose|n: int| 0 <= n < rest.len() && rest[n] == id;
        assert(windows[n] == id);
        assert(windows.contains(id));
    }
    let before = updates_of(state, config, forward, rest).0;
    let updates = updates_of(state, config, forward, windows).0;
    if l < before.len() {
        lemma_updates_in_order(state, config, forward, rest, k, l);
        let (i, j) = choose|i: int, j: int|
            0 <= i < j < rest.len() && #[trigger] rest[i] == updated_window(before[k])
                && #[trigger] rest[j] == updated_window(before[l]);
        assert(windows[i] == updated_window(updates[k]));
        assert(windows[j] == updated_window(updates[l]));
    } else {
        assert(windows[windows.len() - 1] == last);
        assert(windows.contains(last));
        assert(state.find_window(last) is Some);
        lemma_found_container(state, last);
        assert(updated_window(updates[l]) == last);
        lemma_update_is_of_a_window(state, config, forward, rest, k);
        let i = choose|i: int|
            0 <= i < rest.len() && #[trigger] rest[i] == updated_window(before[k]);
        assert(windows[i] == updated_window(updates[k]));
    }
}

/// Every update is of one of the windows listed.
proof fn lemma_update_is_of_a_window(
    state: WmState,
    config: UserConfig,
    forward: Seq<ContainerId>,
    windows: Seq<ContainerId>,
    k: int,
)
    requires
        forall|id: ContainerId|
            windows.contains(id) ==> #[trigger] state.find_window(id) is Some,
        0 <= k < updates_of(state, config, forward, windows).0.len(),
    ensures
        exists|i: int|
            0 <= i < windows.len() && #[trigger] windows[i] == updated_window(
                updates_of(state, config, forward, windows).0[k],
            ),
    decreases windows.len(),
{
    let rest = windows.drop_last();
    let last = windows.last();
    assert forall|id: ContainerId| rest.contains(id) implies #[trigger] state.find_window(
        id,
    ) is Some by {
        let n = choose|n: int| 0 <= n < rest.len() && rest[n] == id;
        assert(windows[n] == id);
        assert(windows.contains(id));
    }
    let before = updates_of(state, config, forward, rest).0;
    let updates = updates_of(state, config, forward, windows).0;
    if k < before.len() {
        lemma_update_is_of_a_window(state, config, forward, rest, k);
        let i = choose|i: int|
            0 <= i < rest.len() && #[trigger] rest[i] == updated_window(before[k]);
        assert(windows[i] == updated_window(updates[k]));
    } else {
        assert(windows[windows.len() - 1] == last);
        assert(windows.contains(last));
        assert(state.find_window(last) is Some);
        lemma_found_container(state, last);
        assert(updated_window(updates[k]) == last);
    }
}

/// No window is hidden before every window that is to be seen has been
/// redrawn, so that the desktop does not flash up in between.
pub proof fn law_destination_is_redrawn_before_the_outgoing_is_hidden(
    state: WmState,
    config: UserConfig,
    focused_workspace: ContainerId,
    k: int,
    l: int,
)
    requires
        0 <= k < l < redraw_plan(state, config, focused_workspace).0.len(),
    ensures
        ({
            let updates = redraw_plan(state, config, focused_workspace).0;
            updates[k] matches WindowUpdate::Redraw(earlier) ==> (
            updates[l] matches WindowUpdate::Redraw(later) ==> (later.is_visible
                ==> earlier.is_visible))
        }),
{
    let forward = forward_windows(state, focused_workspace);
    let windows = unique(redrawn_windows(state) + forward);
    let order = update_order(state, forward);
    let updates = redraw_plan(state, config, focused_workspace).0;
    lemma_update_order(state, focused_workspace);
    lemma_updates(state, config, forward, order);
    lemma_updates_in_order(state, config, forward, order, k, l);
    let (i, j) = choose|i: int, j: int|
        0 <= i < j < order.len() && #[trigger] order[i] == updated_window(updates[k])
            && #[trigger] order[j] == updated_window(updates[l]);
    crate::redraw_order::lemma_unique(redrawn_windows(state) + forward);
    crate::redraw_order::law_windows_are_revealed_before_others_are_hidden(state, windows);
    assert(crate::redraw_order::sort_key(state, order[j]).0 ==> crate::redraw_order::sort_key(
        state,
        order[i],
    ).0);
    assert(update_of(state, config, forward, order[i]) == Ok::<Option<WindowUpdate>, WmError>(
        Some(updates[k]),
    ));
    assert(update_of(state, config, forward, order[j]) == Ok::<Option<WindowUpdate>, WmError>(
        Some(updates[l]),
    ));
    assert(order.contains(order[i]));
    assert(order.contains(order[j]));
    assert(state.find_window(order[i]) is Some);
    assert(state.find_window(order[j]) is Some);
}

/// A window that is brought forward without being held on top goes right
/// behind the window that was focused last in its workspace, unless it is that
/// window itself.
pub proof fn law_others_come_forward_behind_the_focused_window(
    state: WmState,
    config: UserConfig,
    forward: Seq<ContainerId>,
    id: ContainerId,
    focused: WindowRef,
)
    requires
        update_of(state, config, forward, id) matches Ok(Some(_)),
        forward.contains(id),
        !shown_on_top(state.find_container(id)->0.window->0.state),
        state.focused_descendant(state.workspace_of(state.find_container(id)->0)->0) == Some(
            focused,
        ),
    ensures
        ({
            let z_order = match update_of(state, config, forward, id)->Ok_0->0 {
                WindowUpdate::Restack { z_order, .. } => z_order,
                WindowUpdate::Redraw(redraw) => redraw.z_order,
            };
            z_order == if focused.id == id {
                WindowZOrder::Normal
            } else {
                WindowZOrder::AfterWindow(focused.native)
            }
        }),
{
}

/// A window that is held on top is above all others, and no other is.
pub proof fn law_only_windows_held_on_top_are_topmost(
    state: WmState,
    config: UserConfig,
    forward: Seq<ContainerId>,
    id: ContainerId,
)
    requires
        update_of(state, config, forward, id) matches Ok(Some(_)),
    ensures
        ({
            let z_order = match update_of(state, config, forward, id)->Ok_0->0 {
                WindowUpdate::Restack { z_order, .. } => z_order,
                WindowUpdate::Redraw(redraw) => redraw.z_order,
            };
            z_order == WindowZOrder::TopMost <==> shown_on_top(
                state.find_container(id)->0.window->0.state,
            )
        }),
{
}

/// A container as it is after the updates: in the display state of the redraw
/// that is about it, or as it was.
pub open spec fn displayed_by(c: Container, updates: Seq<WindowUpdate>, after: Container) -> bool {
    if exists|k: int|
        0 <= k < updates.len() && #[trigger] updates[k] is Redraw && updated_window(updates[k])
            == c.id {
        forall|k: int|
            0 <= k < updates.len() && #[trigger] updates[k] is Redraw && updated_window(updates[k])
                == c.id ==> after == with_display_state(c, updates[k]->Redraw_0.display_state)
    } else {
        after == c
    }
}

/// Every window that is redrawn ends in the display state planned for it, and
/// nothing else about any container changes.
pub proof fn law_redrawn_windows_change_display_state(
    containers: Seq<Container>,
    updates: Seq<WindowUpdate>,
)
    requires
        container_ids(containers).no_duplicates(),
        forall|k: int, l: int|
            0 <= k < l < updates.len() ==> updated_window(#[trigger] updates[k])
                != updated_window(#[trigger] updates[l]),
    ensures
        displayed(containers, updates).len() == containers.len(),
        forall|i: int|
            0 <= i < containers.len() ==> displayed_by(
                containers[i],
                updates,
                #[trigger] displayed(containers, updates)[i],
            ),
    decreases updates.len(),
{
    if updates.len() > 0 {
        let rest = updates.drop_last();
        let last = updates.last();
        let before = displayed(containers, rest);
        let after = displayed(containers, updates);
        law_redrawn_windows_change_display_state(containers, rest);
        assert(container_ids(before) =~= container_ids(containers)) by {
            assert forall|i: int| 0 <= i < containers.len() implies (#[trigger] before[i]).id
                == containers[i].id by {
                assert(displayed_by(containers[i], rest, before[i]));
            }
        }
        container_ids(before).index_of_first_ensures(updated_window(last));
        assert forall|i: int| 0 <= i < containers.len() implies displayed_by(
            containers[i],
            updates,
            #[trigger] after[i],
        ) by {
            let c = containers[i];
            assert(displayed_by(c, rest, before[i]));
            assert(container_ids(containers)[i] == c.id);
            assert(updates[updates.len() - 1] == last);
            assert forall|k: int| 0 <= k < rest.len() implies #[trigger] rest[k] == updates[k] by {}
            if last is Redraw && updated_window(last) == c.id {
                assert forall|k: int| 0 <= k < rest.len() implies updated_window(
                    #[trigger] rest[k],
                ) != c.id by {
                    assert(updated_window(updates[k]) != updated_window(
                        updates[updates.len() - 1],
                    ));
                }
                assert(before[i] == c);
                assert(container_ids(before)[i] == c.id);
                assert(after[i] == with_display_state(c, last->Redraw_0.display_state));
            } else {
                assert(after[i] == before[i]);
                if exists|k: int|
                    0 <= k < updates.len() && #[trigger] updates[k] is Redraw && updated_window(
                        updates[k],
                    ) == c.id {
                    let k = choose|k: int|
                        0 <= k < updates.len() && #[trigger] updates[k] is Redraw
                            && updated_window(updates[k]) == c.id;
                    assert(rest[k] == updates[k]);
                }
            }
        }
    }
}

/// Whether a window in a state is held above all others: it is floating or
/// fullscreen and configured to be.
pub open spec fn is_held_on_top(state: WindowState) -> bool {
    ||| state matches WindowState::Floating(floating) && floating.shown_on_top
    ||| state matches WindowState::Fullscreen(fullscreen) && fullscreen.shown_on_top
}

/// Whether a window goes to a place in the stack: above all others where it is
/// held there; right behind the window focused last in its workspace where it
/// comes forward and is another one; and otherwise where it comes to lie.
pub open spec fn is_stacked(
    state: WmState,
    workspace: Workspace,
    id: ContainerId,
    window: Window,
    forward: bool,
    z_order: WindowZOrder,
) -> bool {
    let behind = match state.focused_descendant(workspace) {
        Some(focused) => forward && focused.id != id,
        None => false,
    };
    &&& is_held_on_top(window.state) <==> z_order is TopMost
    &&& !is_held_on_top(window.state) && behind <==> z_order is AfterWindow
    &&& z_order matches WindowZOrder::AfterWindow(native) ==> state.focused_descendant(
        workspace,
    )->0.native == native
}

/// A window that was queued to be redrawn becomes visible where its workspace is
/// displayed and is hidden where it is not: it is shown or hidden from that
/// redraw on if it was otherwise before, and stays as it was if not. The taskbar
/// is told of it on Windows just if windows are cloaked and not all of them have
/// a tab, on every redraw of a hidden window, and of a visible one only as it is
/// shown.
pub proof fn law_queued_window_is_redrawn(
    state: WmState,
    config: UserConfig,
    forward: Seq<ContainerId>,
    id: ContainerId,
    c: Container,
    w: Window,
    workspace: Workspace,
    monitor: Monitor,
    corner: HideCorner,
)
    requires
        state.find_container(id) == Some(c),
        c.window == Some(w),
        state.workspace_of(c) == Some(workspace),
        state.monitor_of(c) == Some(monitor),
        hide_corner_of(state, monitor.id) == Some(corner),
        state.pending_sync.windows_to_redraw@.contains(id),
    ensures
        update_of(state, config, forward, id) matches Ok(Some(WindowUpdate::Redraw(redraw))) && {
            let was_visible = w.display_state == DisplayState::Shown || w.display_state
                == DisplayState::Showing;
            &&& redraw.window == (WindowRef { id, native: w.native })
            &&& redraw.is_visible == workspace.is_displayed
            &&& workspace.is_displayed && !was_visible ==> redraw.display_state
                == DisplayState::Showing
            &&& !workspace.is_displayed && was_visible ==> redraw.display_state
                == DisplayState::Hiding
            &&& workspace.is_displayed == was_visible ==> redraw.display_state == w.display_state
            &&& is_stacked(state, workspace, id, w, forward.contains(id), redraw.z_order)
            &&& redraw.placement == placement_of(
                state,
                c,
                corner,
                redraw.z_order,
                workspace.is_displayed,
                config,
            )
            &&& redraw.taskbar_visibility is Some <==> {
                &&& state.os == TargetOs::Windows
                &&& config.general.hide_method == HideMethod::Cloak
                &&& !config.general.show_all_in_taskbar
                &&& !workspace.is_displayed || redraw.display_state == DisplayState::Showing
            }
            &&& redraw.taskbar_visibility matches Some(shown) ==> shown == workspace.is_displayed
        },
{
    lemma_found_container(state, id);
    let wanted = |id: ContainerId| state.find_window(id) is Some;
    assert(wanted(id));
    let queued = state.pending_sync.windows_to_redraw@;
    let n = choose|n: int| 0 <= n < queued.len() && queued[n] == id;
    queued.lemma_filter_contains(wanted, n);
    assert(redrawn_windows(state).contains(id));
}

/// A window that was not queued to be redrawn is restacked just if it comes
/// forward and the system is Windows. Nothing else is done about it.
pub proof fn law_other_window_is_at_most_restacked(
    state: WmState,
    config: UserConfig,
    forward: Seq<ContainerId>,
    id: ContainerId,
    c: Container,
    w: Window,
    workspace: Workspace,
    monitor: Monitor,
)
    requires
        state.find_container(id) == Some(c),
        c.window == Some(w),
        state.workspace_of(c) == Some(workspace),
        state.monitor_of(c) == Some(monitor),
        hide_corner_of(state, monitor.id) is Some,
        !state.pending_sync.windows_to_redraw@.contains(id),
    ensures
        update_of(state, config, forward, id) matches Ok(update) && match update {
            Some(WindowUpdate::Restack { window, z_order }) => {
                &&& state.os == TargetOs::Windows && forward.contains(id)
                &&& window == (WindowRef { id, native: w.native })
                &&& is_stacked(state, workspace, id, w, true, z_order)
            },
            Some(WindowUpdate::Redraw(_)) => false,
            None => !(state.os == TargetOs::Windows && forward.contains(id)),
        },
{
    if redrawn_windows(state).contains(id) {
        lemma_redrawn_were_queued(state, id);
    }
}

/// Nothing can be done about a window just if it lies in no workspace, or else on
/// no monitor, or else on one without a corner to put windows away in, and that
/// is what is said.
pub proof fn law_window_that_belongs_nowhere_says_why(
    state: WmState,
    config: UserConfig,
    forward: Seq<ContainerId>,
    id: ContainerId,
    c: Container,
    e: WmError,
)
    requires
        state.find_container(id) == Some(c),
    ensures
        update_of(state, config, forward, id) == Err::<Option<WindowUpdate>, WmError>(e) <==> {
            ||| state.workspace_of(c) is None && e is WindowHasNoWorkspace
            ||| state.workspace_of(c) is Some && state.monitor_of(c) is None && e is NoMonitor
            ||| state.workspace_of(c) is Some && (state.monitor_of(c) matches Some(m)
                && hide_corner_of(state, m.id) is None) && e is MonitorNotInHideCornerMap
        },
{
}

/// The corner of a monitor is the first that is listed for it.
pub proof fn law_corner_of_a_monitor(state: WmState, monitor: ContainerId, i: int)
    requires
        0 <= i < state.monitors_by_hide_corner@.len(),
        state.monitors_by_hide_corner@[i].0 == monitor,
        forall|j: int| 0 <= j < i ==> (#[trigger] state.monitors_by_hide_corner@[j]).0 != monitor,
    ensures
        hide_corner_of(state, monitor) == Some(state.monitors_by_hide_corner@[i].1),
{
    let ids = state.monitors_by_hide_corner@.map_values(|m: (ContainerId, HideCorner)| m.0);
    assert forall|j: int| 0 <= j < i implies ids[j] != monitor by {
        assert(state.monitors_by_hide_corner@[j].0 != monitor);
    }
    crate::state::lemma_first_at(ids, monitor, i);
}

/// Whether something can be done about a window.
pub open spec fn belongs_somewhere(state: WmState, id: ContainerId) -> bool {
    state.find_container(id) matches Some(c) && state.workspace_of(c) is Some && (
    state.monitor_of(c) matches Some(m) && hide_corner_of(state, m.id) is Some)
}

/// Where something can be done about every window that was queued or comes
/// forward, a plan does not fail, and something is done about each of them that
/// anything is to be done about.
pub proof fn law_plan_is_whole_where_windows_belong_somewhere(
    state: WmState,
    config: UserConfig,
    focused_workspace: ContainerId,
)
    requires
        forall|id: ContainerId| #[trigger]
            state.pending_sync.windows_to_redraw@.contains(id) && state.find_window(id) is Some
                ==> belongs_somewhere(state, id),
        forall|id: ContainerId| #[trigger]
            forward_windows(state, focused_workspace).contains(id) ==> belongs_somewhere(state, id),
    ensures
        ({
            let forward = forward_windows(state, focused_workspace);
            let (updates, failure) = redraw_plan(state, config, focused_workspace);
            &&& failure is None
            &&& forall|id: ContainerId| #[trigger]
                forward.contains(id) ==> match update_of(state, config, forward, id) {
                    Ok(Some(update)) => updates.contains(update),
                    Ok(None) => true,
                    Err(_) => false,
                }
        }),
{
    let forward = forward_windows(state, focused_workspace);
    let redrawn = redrawn_windows(state);
    let order = update_order(state, forward);
    lemma_update_order(state, focused_workspace);
    lemma_updates(state, config, forward, order);
    crate::redraw_order::lemma_unique(redrawn + forward);
    if let Some(e) = redraw_plan(state, config, focused_workspace).1 {
        let id = choose|id: ContainerId| #[trigger]
            order.contains(id) && update_of(state, config, forward, id) == Err::<
                Option<WindowUpdate>,
                WmError,
            >(e);
        assert((redrawn + forward).contains(id));
        let k = choose|k: int| 0 <= k < (redrawn + forward).len() && (redrawn + forward)[k] == id;
        assert(state.find_window(id) is Some);
        if k < redrawn.len() {
            assert(redrawn[k] == id);
            lemma_redrawn_were_queued(state, id);
            assert(state.pending_sync.windows_to_redraw@.contains(id));
        } else {
            assert(forward[k - redrawn.len()] == id);
            assert(forward.contains(id));
        }
        assert(belongs_somewhere(state, id));
    }
    assert forall|id: ContainerId| #[trigger] forward.contains(id) implies order.contains(id) by {
        let k = choose|k: int| 0 <= k < forward.len() && forward[k] == id;
        assert((redrawn + forward)[redrawn.len() + k] == id);
        assert((redrawn + forward).contains(id));
    }
}

/// A window that goes into another display state keeps everything else.
pub proof fn law_only_the_display_state_changes(c: Container, display_state: DisplayState)
    ensures
        ({
            let after = with_display_state(c, display_state);
            &&& c.window is None ==> after == c
            &&& c.window matches Some(w) ==> after == (Container {
                window: Some(Window { display_state, ..w }),
                ..c
            })
        }),
{
}

/// On Windows the shell is told of a window once it is placed, as long as it has
/// not been told and is owed something; elsewhere it is told nothing.
pub proof fn law_placed_windows_are_told_of(
    redraw: Redraw,
    replies: UpdateReplies,
    state: WmState,
    c: Container,
)
    requires
        state.find_container(redraw.window.id) == Some(c),
        placing_call(redraw, replies.placement) is None,
    ensures
        ({
            let action = update_action(WindowUpdate::Redraw(redraw), replies, state);
            &&& action is MarkFullscreen <==> state.os == TargetOs::Windows && replies.mark is Pending
                && mark_owed(state, c) is Some
            &&& action matches UpdateAction::MarkFullscreen(is_fullscreen) ==> mark_owed(state, c)
                == Some(is_fullscreen)
            &&& !(action is MarkFullscreen) ==> {
                &&& redraw.taskbar_visibility is Some && replies.taskbar_visibility is Pending
                    ==> action == UpdateAction::SetTaskbarVisibility(redraw.taskbar_visibility->0)
                &&& !(redraw.taskbar_visibility is Some && replies.taskbar_visibility is Pending)
                    ==> action is Done
            }
        }),
{
}

/// A window is placed by the calls of its placement, each as long as there is
/// one, whatever else is to be done about it; a window that cannot be placed is
/// passed over. One that is only restacked is given its place in the stack.
pub proof fn law_windows_are_placed_first(
    redraw: Redraw,
    replies: UpdateReplies,
    state: WmState,
    window: WindowRef,
    z_order: WindowZOrder,
)
    ensures
        redraw.placement matches Ok(placement) ==> (placement_action(
            placement,
            replies.placement,
        ) matches PlacementAction::Call(step, call) ==> update_action(
            WindowUpdate::Redraw(redraw),
            replies,
            state,
        ) == UpdateAction::Place(step, call)),
        redraw.placement matches Ok(placement) ==> (!(placement_action(
            placement,
            replies.placement,
        ) is Call) ==> placing_call(redraw, replies.placement) is None),
        redraw.placement is Err ==> placing_call(redraw, replies.placement) is None,
        update_action(WindowUpdate::Restack { window, z_order }, replies, state)
            == if replies.restack is Pending {
            UpdateAction::SetZOrder(z_order)
        } else {
            UpdateAction::Done
        },
{
}

/// The taskbar has to be told of a window just if windows are cloaked, not all of
/// them have a tab, and the window is not visible or just being shown.
pub proof fn law_taskbar_is_told(
    hide_method: HideMethod,
    show_all_in_taskbar: bool,
    display_state: DisplayState,
    is_visible: bool,
)
    ensures
        taskbar_told(hide_method, show_all_in_taskbar, display_state, is_visible) <==> {
            &&& hide_method is Cloak
            &&& !show_all_in_taskbar
            &&& !is_visible || display_state is Showing
        },
{
}

/// Windows are updated up to the first about which nothing can be done, which is
/// what the failure is of: what is to be done about those before it is done.
pub proof fn law_updates_before_a_failure_stand(
    state: WmState,
    config: UserConfig,
    forward: Seq<ContainerId>,
    windows: Seq<ContainerId>,
    k: int,
)
    requires
        0 <= k < windows.len(),
        forall|j: int|
            0 <= j < k ==> update_of(state, config, forward, #[trigger] windows[j]) is Ok,
    ensures
        ({
            let (updates, failure) = updates_of(state, config, forward, windows);
            match update_of(state, config, forward, windows[k]) {
                Ok(Some(update)) => updates.contains(update),
                Ok(None) => true,
                Err(e) => failure == Some(e),
            }
        }),
    decreases windows.len(),
{
    let rest = windows.drop_last();
    let (before, failed) = updates_of(state, config, forward, rest);
    let (updates, failure) = updates_of(state, config, forward, windows);
    if k < rest.len() {
        assert forall|j: int| 0 <= j < k implies update_of(
            state,
            config,
            forward,
            #[trigger] rest[j],
        ) is Ok by {
            assert(update_of(state, config, forward, windows[j]) is Ok);
        }
        law_updates_before_a_failure_stand(state, config, forward, rest, k);
        if let Ok(Some(update)) = update_of(state, config, forward, windows[k]) {
            let n = choose|n: int| 0 <= n < before.len() && before[n] == update;
            assert(updates[n] == update);
        }
    } else {
        lemma_no_failure(state, config, forward, rest);
        if let Ok(Some(update)) = update_of(state, config, forward, windows[k]) {
            assert(updates[updates.len() - 1] == update);
        }
    }
}

proof fn lemma_no_failure(
    state: WmState,
    config: UserConfig,
    forward: Seq<ContainerId>,
    windows: Seq<ContainerId>,
)
    requires
        forall|j: int|
            0 <= j < windows.len() ==> update_of(
                state,
                config,
                forward,
                #[trigger] windows[j],
            ) is Ok,
    ensures
        updates_of(state, config, forward, windows).1 is None,
    decreases windows.len(),
{
    if windows.len() > 0 {
        let rest = windows.drop_last();
        assert forall|j: int| 0 <= j < rest.len() implies update_of(
            state,
            config,
            forward,
            #[trigger] rest[j],
        ) is Ok by {
            assert(update_of(state, config, forward, windows[j]) is Ok);
        }
        lemma_no_failure(state, config, forward, rest);
        assert(update_of(state, config, forward, windows[windows.len() - 1]) is Ok);
    }
}

/// Where every window that is queued can be placed wherever it may go, every
/// redraw can be planned; and where it can be told of a window whether it covers
/// the taskbar, it can be told what to do next about it.
pub proof fn law_placeable_windows_can_be_redrawn(
    state: WmState,
    config: UserConfig,
    update: WindowUpdate,
    replies: UpdateReplies,
)
    requires
        forall|i: int, corner: HideCorner, is_visible: bool|
            0 <= i < state.containers@.len() ==> #[trigger] placement_fits(
                state,
                state.containers@[i],
                corner,
                is_visible,
                config,
            ),
        forall|i: int|
            0 <= i < state.containers@.len() ==> #[trigger] state.covering_fits(
                state.containers@[i],
            ),
    ensures
        planned_redraws_fit(state, config),
        update_fits(update, replies, state),
{
    assert forall|id: ContainerId| state.find_container(id) is Some implies exists|i: int|
        0 <= i < state.containers@.len() && #[trigger] state.containers@[i]
            == state.find_container(id)->0 by {
        container_ids(state.containers@).index_of_first_ensures(id);
        let i = container_ids(state.containers@).index_of_first(id)->0;
        assert(state.containers@[i] == state.find_container(id)->0);
    }
    assert forall|id: ContainerId| #[trigger] redraw_fits(state, config, id) by {
        if state.find_container(id) is Some {
            let i = choose|i: int|
                0 <= i < state.containers@.len() && #[trigger] state.containers@[i]
                    == state.find_container(id)->0;
            assert(forall|corner: HideCorner, is_visible: bool|
                placement_fits(state, state.containers@[i], corner, is_visible, config));
        }
    }
    if let WindowUpdate::Redraw(redraw) = update {
        if state.find_container(redraw.window.id) is Some {
            let i = choose|i: int|
                0 <= i < state.containers@.len() && #[trigger] state.containers@[i]
                    == state.find_container(redraw.window.id)->0;
            assert(state.covering_fits(state.containers@[i]));
        }
    }
}

} // verus!
