//! Moving focus through the windows of a workspace that are in one state.

use vstd::prelude::*;

use crate::state::{
    position, Container, ContainerId, PendingSync, Window, WindowState, WmState, Workspace,
};

verus! {

/// Direction in which to cycle through windows.
#[derive(PartialEq, Eq, Structural, Clone, Copy, Debug)]
pub enum FocusCycleDirection {
    Next,
    Previous,
}

/// Whether a container is a window in a state of the given kind.
pub open spec fn is_window_in_state(state: WmState, id: ContainerId, kind: WindowState) -> bool {
    match state.find_window(id) {
        Some(w) => w.state.same_state(kind),
        None => false,
    }
}

/// The windows of a workspace in a state of the given kind, in the order of
/// the tree.
pub open spec fn windows_in_state(
    state: WmState,
    workspace: Workspace,
    kind: WindowState,
) -> Seq<ContainerId> {
    workspace.descendants@.filter(|id: ContainerId| is_window_in_state(state, id, kind))
}

/// The windows that focus moves through, starting from a container.
pub open spec fn cycle_of(state: WmState, origin: Container) -> Seq<ContainerId> {
    match (origin.window, state.workspace_of(origin)) {
        (Some(w), Some(workspace)) => if w.state is Minimized {
            Seq::empty()
        } else {
            windows_in_state(state, workspace, w.state)
        },
        _ => Seq::empty(),
    }
}

/// Where focus goes from the window at `index` of `count` windows.
pub open spec fn cycle_index(index: int, count: nat, direction: FocusCycleDirection) -> int {
    match direction {
        FocusCycleDirection::Next => (index + 1) % (count as int),
        FocusCycleDirection::Previous => if index == 0 {
            count - 1
        } else {
            index - 1
        },
    }
}

/// The window that focus goes to.
pub open spec fn cycle_target(
    state: WmState,
    origin: ContainerId,
    direction: FocusCycleDirection,
) -> Option<ContainerId> {
    match state.find_container(origin) {
        Some(c) => {
            let windows = cycle_of(state, c);
            match windows.index_of_first(origin) {
                Some(i) => if windows.len() < 2 {
                    None
                } else {
                    Some(windows[cycle_index(i, windows.len(), direction)])
                },
                None => None,
            }
        },
        None => None,
    }
}

/// The windows of a workspace in a state of the given kind.
fn find_windows_in_state(state: &WmState, workspace: &Workspace, kind: &WindowState) -> (r: Vec<
    ContainerId,
>)
    ensures
        r@ == windows_in_state(*state, *workspace, *kind),
{
    let ghost wanted = |id: ContainerId| is_window_in_state(*state, id, *kind);
    let ghost all = workspace.descendants@;
    let mut windows: Vec<ContainerId> = Vec::new();
    proof {
        reveal(Seq::filter);
        assert(windows@ =~= all.take(0).filter(wanted));
    }
    let mut i: usize = 0;
    while i < workspace.descendants.len()
        invariant
            i <= all.len(),
            all == workspace.descendants@,
            wanted == (|id: ContainerId| is_window_in_state(*state, id, *kind)),
            windows@ == all.take(i as int).filter(wanted),
        decreases all.len() - i,
    {
        let id: ContainerId = workspace.descendants[i];
        proof {
            assert(all.take(i + 1) =~= all.take(i as int).push(id));
            all.take(i as int).lemma_filter_push(id, wanted);
        }
        let in_state = match state.container(id) {
            Some(c) => match &c.window {
                Some(w) => w.state.is_same_state(kind),
                None => false,
            },
            None => false,
        };
        if in_state {
            windows.push(id);
        }
        i += 1;
    }
    proof {
        assert(all.take(i as int) =~= all);
    }
    windows
}

/// Gets the next or previous window with the same state in the current
/// workspace.
///
/// Returns `None` when the origin is not a window or there is no other window
/// with the same state.
pub fn window_cycle_target(
    origin_container: ContainerId,
    direction: FocusCycleDirection,
    state: &WmState,
) -> (r: Option<ContainerId>)
    ensures
        r == cycle_target(*state, origin_container, direction),
{
    proof {
        Seq::<ContainerId>::empty().index_of_first_ensures(origin_container);
    }
    let origin = match state.container(origin_container) {
        Some(origin) => origin,
        None => return None,
    };
    let origin_window = match &origin.window {
        Some(window) => window,
        None => return None,
    };
    let workspace = match state.containing_workspace(origin) {
        Some(workspace) => workspace,
        None => return None,
    };
    if matches!(origin_window.state, WindowState::Minimized) {
        return None;
    }
    let windows = find_windows_in_state(state, workspace, &origin_window.state);
    if windows.len() < 2 {
        return None;
    }
    let origin_index: usize = match position(&windows, origin_container) {
        Some(index) => index,
        None => return None,
    };
    let target_index: usize = match direction {
        FocusCycleDirection::Next => (origin_index + 1) % windows.len(),
        FocusCycleDirection::Previous => if origin_index == 0 {
            windows.len() - 1
        } else {
            origin_index - 1
        },
    };
    Some(windows[target_index])
}

/// Focuses the next or previous window with the same state in the current
/// workspace.
///
/// Window order is based on the container tree and wraps at both ends. Gives
/// the window that focus goes to, for the tree to take note of, and queues
/// what follows from it.
pub fn focus_window_in_cycle(
    origin_container: ContainerId,
    direction: FocusCycleDirection,
    state: &mut WmState,
) -> (r: Option<ContainerId>)
    ensures
        r == cycle_target(*old(state), origin_container, direction),
        *final(state) == match r {
            Some(_) => WmState {
                pending_sync: PendingSync {
                    needs_focus_update: true,
                    needs_cursor_jump: true,
                    ..old(state).pending_sync
                },
                ..*old(state)
            },
            None => *old(state),
        },
{
    let focus_target = window_cycle_target(origin_container, direction, state);
    if focus_target.is_some() {
        state.pending_sync.queue_focus_change();
        state.pending_sync.queue_cursor_jump();
    }
    focus_target
}

/// Whether a workspace lists its containers once each, and each of them knows
/// the workspace that it lies in.
pub open spec fn workspace_wf(state: WmState, workspace: Workspace) -> bool {
    &&& workspace.descendants@.no_duplicates()
    &&& state.find_workspace(workspace.id) == Some(workspace)
    &&& forall|id: ContainerId| #[trigger]
        workspace.descendants@.contains(id) ==> (state.find_container(id) matches Some(c)
            ==> c.workspace == Some(workspace.id))
}

/// A container that focus can be moved from: it lies in a workspace that lists
/// its containers once each.
pub open spec fn origin_wf(state: WmState, origin: ContainerId) -> bool {
    state.find_container(origin) matches Some(c) && (state.workspace_of(c) matches Some(workspace)
        && workspace_wf(state, workspace))
}

/// Filtering a list without repetitions adds none.
proof fn lemma_filter_no_duplicates(ids: Seq<ContainerId>, wanted: spec_fn(ContainerId) -> bool)
    requires
        ids.no_duplicates(),
    ensures
        ids.filter(wanted).no_duplicates(),
    decreases ids.len(),
{
    reveal(Seq::filter);
    if ids.len() > 0 {
        let rest = ids.drop_last();
        lemma_filter_no_duplicates(rest, wanted);
        assert forall|k: int| 0 <= k < rest.filter(wanted).len() implies #[trigger] rest.filter(
            wanted,
        )[k] != ids.last() by {
            assert(rest.filter(wanted).contains(rest.filter(wanted)[k]));
            rest.lemma_filter_contains_rev(wanted, rest.filter(wanted)[k]);
            let i = choose|i: int| 0 <= i < rest.len() && rest[i] == rest.filter(wanted)[k];
            assert(ids[i] != ids[ids.len() - 1]);
        }
    }
}

/// From every window of a cycle, focus moves through the same cycle.
proof fn lemma_same_cycle(state: WmState, origin: ContainerId, k: int)
    requires
        origin_wf(state, origin),
        0 <= k < cycle_of(state, state.find_container(origin)->0).len(),
    ensures
        ({
            let windows = cycle_of(state, state.find_container(origin)->0);
            &&& windows.no_duplicates()
            &&& windows.index_of_first(windows[k]) == Some(k)
            &&& origin_wf(state, windows[k])
            &&& cycle_of(state, state.find_container(windows[k])->0) == windows
        }),
{
    let c = state.find_container(origin)->0;
    let workspace = state.workspace_of(c)->0;
    let kind = c.window->0.state;
    let wanted = |id: ContainerId| is_window_in_state(state, id, kind);
    let windows = cycle_of(state, c);
    lemma_filter_no_duplicates(workspace.descendants@, wanted);
    windows.index_of_first_ensures(windows[k]);
    workspace.descendants@.lemma_filter_pred(wanted, k);
    assert(windows.contains(windows[k]));
    workspace.descendants@.lemma_filter_contains_rev(wanted, windows[k]);
    assert(workspace.descendants@.contains(windows[k]));
    let other = state.find_window(windows[k])->0.state;
    let wanted_by_other = |id: ContainerId| is_window_in_state(state, id, other);
    assert(wanted =~= wanted_by_other);
}

/// The window that focus goes to is another window of the same workspace, in a
/// state of the same kind.
pub proof fn law_cycle_target_is_another_window_in_the_same_state(
    state: WmState,
    origin: ContainerId,
    direction: FocusCycleDirection,
)
    requires
        origin_wf(state, origin),
        cycle_target(state, origin, direction) is Some,
    ensures
        ({
            let c = state.find_container(origin)->0;
            let target = cycle_target(state, origin, direction)->0;
            &&& target != origin
            &&& state.workspace_of(c)->0.descendants@.contains(target)
            &&& state.find_container(target)->0.workspace == c.workspace
            &&& is_window_in_state(state, target, c.window->0.state)
        }),
{
    let c = state.find_container(origin)->0;
    let workspace = state.workspace_of(c)->0;
    let kind = c.window->0.state;
    let wanted = |id: ContainerId| is_window_in_state(state, id, kind);
    let windows = cycle_of(state, c);
    windows.index_of_first_ensures(origin);
    let i = windows.index_of_first(origin)->0;
    lemma_cycle_index(i, windows.len(), direction);
    let t = cycle_index(i, windows.len(), direction);
    lemma_same_cycle(state, origin, t);
    workspace.descendants@.lemma_filter_pred(wanted, t);
    assert(windows.contains(windows[t]));
    workspace.descendants@.lemma_filter_contains_rev(wanted, windows[t]);
    lemma_containing_workspace(state, c);
}

/// A container's workspace is the one that it names.
proof fn lemma_containing_workspace(state: WmState, c: Container)
    ensures
        state.workspace_of(c) matches Some(workspace) ==> c.workspace == Some(workspace.id),
{
    if let Some(id) = c.workspace {
        crate::state::workspace_ids(state.workspaces@).index_of_first_ensures(id);
    }
}

/// Focus goes to another index of the cycle, and back by the other direction.
proof fn lemma_cycle_index(index: int, count: nat, direction: FocusCycleDirection)
    requires
        0 <= index < count,
        count >= 2,
    ensures
        ({
            let back = match direction {
                FocusCycleDirection::Next => FocusCycleDirection::Previous,
                FocusCycleDirection::Previous => FocusCycleDirection::Next,
            };
            let target = cycle_index(index, count, direction);
            &&& 0 <= target < count
            &&& target != index
            &&& cycle_index(target, count, back) == index
        }),
{
    if index + 1 == count {
        vstd::arithmetic::div_mod::lemma_mod_self_0(count as int);
    } else {
        vstd::arithmetic::div_mod::lemma_small_mod((index + 1) as nat, count);
    }
    if index == 0 {
        vstd::arithmetic::div_mod::lemma_mod_self_0(count as int);
    } else {
        vstd::arithmetic::div_mod::lemma_small_mod(index as nat, count);
    }
}

/// Going one way and then the other comes back to where focus was.
pub proof fn law_opposite_directions_cancel(
    state: WmState,
    origin: ContainerId,
    direction: FocusCycleDirection,
)
    requires
        origin_wf(state, origin),
        cycle_target(state, origin, direction) is Some,
    ensures
        ({
            let back = match direction {
                FocusCycleDirection::Next => FocusCycleDirection::Previous,
                FocusCycleDirection::Previous => FocusCycleDirection::Next,
            };
            cycle_target(state, cycle_target(state, origin, direction)->0, back) == Some(origin)
        }),
{
    let windows = cycle_of(state, state.find_container(origin)->0);
    windows.index_of_first_ensures(origin);
    let i = windows.index_of_first(origin)->0;
    lemma_cycle_index(i, windows.len(), direction);
    lemma_same_cycle(state, origin, cycle_index(i, windows.len(), direction));
}

/// Where focus is after it has been moved in one direction some number of
/// times.
pub open spec fn after_cycling(
    state: WmState,
    origin: ContainerId,
    direction: FocusCycleDirection,
    times: nat,
) -> Option<ContainerId>
    decreases times,
{
    if times == 0 {
        Some(origin)
    } else {
        match after_cycling(state, origin, direction, (times - 1) as nat) {
            Some(id) => cycle_target(state, id, direction),
            None => None,
        }
    }
}

/// Where some number of moves in one direction lead from the window at `start`
/// of `count` windows, wrapping at both ends.
pub open spec fn wrapped_index(
    start: int,
    count: nat,
    direction: FocusCycleDirection,
    times: nat,
) -> int {
    match direction {
        FocusCycleDirection::Next => (start + times) % (count as int),
        FocusCycleDirection::Previous => (start - times) % (count as int),
    }
}

/// One more move leads one window further.
proof fn lemma_wrapped_index(start: int, count: nat, direction: FocusCycleDirection, times: nat)
    requires
        0 <= start < count,
        count >= 2,
    ensures
        0 <= wrapped_index(start, count, direction, times) < count,
        times == 0 || times == count ==> wrapped_index(start, count, direction, times) == start,
        times > 0 ==> wrapped_index(start, count, direction, times) == cycle_index(
            wrapped_index(start, count, direction, (times - 1) as nat),
            count,
            direction,
        ),
{
    let n = count as int;
    let offset = match direction {
        FocusCycleDirection::Next => start + times,
        FocusCycleDirection::Previous => start - times,
    };
    vstd::arithmetic::div_mod::lemma_mod_bound(offset, n);
    vstd::arithmetic::div_mod::lemma_small_mod(start as nat, count);
    vstd::arithmetic::div_mod::lemma_mod_add_multiples_vanish(start, n);
    vstd::arithmetic::div_mod::lemma_mod_sub_multiples_vanish(start, n);
    vstd::arithmetic::div_mod::lemma_small_mod(1, count);
    if times > 0 {
        match direction {
            FocusCycleDirection::Next => {
                vstd::arithmetic::div_mod::lemma_add_mod_noop(offset - 1, 1, n);
                vstd::arithmetic::div_mod::lemma_mod_bound(offset - 1, n);
            },
            FocusCycleDirection::Previous => {
                let before = offset + 1;
                vstd::arithmetic::div_mod::lemma_mod_bound(before, n);
                vstd::arithmetic::div_mod::lemma_sub_mod_noop(before, 1, n);
                if before % n == 0 {
                    vstd::arithmetic::div_mod::lemma_mod_add_multiples_vanish(-1, n);
                    vstd::arithmetic::div_mod::lemma_small_mod((n - 1) as nat, count);
                } else {
                    vstd::arithmetic::div_mod::lemma_small_mod((before % n - 1) as nat, count);
                }
            },
        }
    }
}

/// Going on in either direction comes by the windows of the cycle in the order
/// of the tree, or in its reverse, and wraps at both ends: after as many moves
/// as there are windows focus is back where it was.
pub proof fn law_cycling_wraps(
    state: WmState,
    origin: ContainerId,
    direction: FocusCycleDirection,
    times: nat,
)
    requires
        origin_wf(state, origin),
        cycle_target(state, origin, direction) is Some,
    ensures
        ({
            let windows = cycle_of(state, state.find_container(origin)->0);
            let start = windows.index_of_first(origin)->0;
            &&& after_cycling(state, origin, direction, times) == Some(
                windows[wrapped_index(start, windows.len(), direction, times)],
            )
            &&& times == windows.len() ==> after_cycling(state, origin, direction, times) == Some(
                origin,
            )
        }),
    decreases times,
{
    let windows = cycle_of(state, state.find_container(origin)->0);
    windows.index_of_first_ensures(origin);
    let start = windows.index_of_first(origin)->0;
    lemma_wrapped_index(start, windows.len(), direction, times);
    if times > 0 {
        let before = (times - 1) as nat;
        law_cycling_wraps(state, origin, direction, before);
        lemma_wrapped_index(start, windows.len(), direction, before);
        lemma_same_cycle(state, origin, wrapped_index(start, windows.len(), direction, before));
    }
}

/// Going on in either direction visits every window of the cycle, and none
/// twice before focus is back where it was.
pub proof fn law_cycling_visits_every_window_once(
    state: WmState,
    origin: ContainerId,
    direction: FocusCycleDirection,
    window: ContainerId,
)
    requires
        origin_wf(state, origin),
        cycle_target(state, origin, direction) is Some,
        cycle_of(state, state.find_container(origin)->0).contains(window),
    ensures
        ({
            let count = cycle_of(state, state.find_container(origin)->0).len();
            &&& exists|times: nat|
                times < count && #[trigger] after_cycling(state, origin, direction, times) == Some(
                    window,
                )
            &&& forall|a: nat, b: nat|
                a < b < count ==> #[trigger] after_cycling(state, origin, direction, a)
                    != #[trigger] after_cycling(state, origin, direction, b)
        }),
{
    let windows = cycle_of(state, state.find_container(origin)->0);
    let n = windows.len() as int;
    windows.index_of_first_ensures(origin);
    let start = windows.index_of_first(origin)->0;
    let k = choose|k: int| 0 <= k < windows.len() && windows[k] == window;
    let ahead = match direction {
        FocusCycleDirection::Next => k - start,
        FocusCycleDirection::Previous => start - k,
    };
    let times = (if ahead >= 0 {
        ahead
    } else {
        ahead + n
    }) as nat;
    lemma_wrapped_in_range(start, windows.len(), direction, times);
    law_cycling_wraps(state, origin, direction, times);
    assert(after_cycling(state, origin, direction, times) == Some(window));
    lemma_same_cycle(state, origin, start);
    assert forall|a: nat, b: nat| a < b < n implies #[trigger] after_cycling(
        state,
        origin,
        direction,
        a,
    ) != #[trigger] after_cycling(state, origin, direction, b) by {
        law_cycling_wraps(state, origin, direction, a);
        law_cycling_wraps(state, origin, direction, b);
        lemma_wrapped_in_range(start, windows.len(), direction, a);
        lemma_wrapped_in_range(start, windows.len(), direction, b);
    }
}

/// Fewer moves than there are windows wrap at most once.
proof fn lemma_wrapped_in_range(start: int, count: nat, direction: FocusCycleDirection, times: nat)
    requires
        0 <= start < count,
        times < count,
    ensures
        wrapped_index(start, count, direction, times) == match direction {
            FocusCycleDirection::Next => if start + times < count {
                start + times
            } else {
                start + times - count
            },
            FocusCycleDirection::Previous => if start >= times {
                start - times
            } else {
                start - times + count
            },
        },
{
    let n = count as int;
    match direction {
        FocusCycleDirection::Next => {
            if start + times < count {
                vstd::arithmetic::div_mod::lemma_small_mod((start + times) as nat, count);
            } else {
                vstd::arithmetic::div_mod::lemma_mod_add_multiples_vanish(start + times - n, n);
                vstd::arithmetic::div_mod::lemma_small_mod((start + times - n) as nat, count);
            }
        },
        FocusCycleDirection::Previous => {
            if start >= times {
                vstd::arithmetic::div_mod::lemma_small_mod((start - times) as nat, count);
            } else {
                vstd::arithmetic::div_mod::lemma_mod_add_multiples_vanish(start - times, n);
                vstd::arithmetic::div_mod::lemma_small_mod((start - times + n) as nat, count);
            }
        },
    }
}

/// Whether a container is a window that is tiling, floating or fullscreen, or
/// minimized, just as another window is.
pub open spec fn is_held_like(state: WmState, id: ContainerId, window: Window) -> bool {
    match state.find_window(id) {
        Some(w) => {
            ||| w.state is Tiling && window.state is Tiling
            ||| w.state is Floating && window.state is Floating
            ||| w.state is Fullscreen && window.state is Fullscreen
            ||| w.state is Minimized && window.state is Minimized
        },
        None => false,
    }
}

/// A container that is listed in its workspace, and the window that it is.
pub open spec fn is_listed_window(
    state: WmState,
    origin: ContainerId,
    workspace: Workspace,
    window: Window,
) -> bool {
    &&& state.find_container(origin) matches Some(c) && c.window == Some(window)
        && state.workspace_of(c) == Some(workspace)
    &&& workspace.descendants@.contains(origin)
}

/// From a tiling, floating or fullscreen window there is a window to move focus
/// to, in either direction, whenever its workspace lists another one that is
/// tiling, floating or fullscreen like it.
pub proof fn law_another_window_of_the_kind_is_a_target(
    state: WmState,
    origin: ContainerId,
    workspace: Workspace,
    window: Window,
    other: ContainerId,
    direction: FocusCycleDirection,
)
    requires
        is_listed_window(state, origin, workspace, window),
        window.state is Tiling || window.state is Floating || window.state is Fullscreen,
        workspace.descendants@.contains(other),
        other != origin,
        is_held_like(state, other, window),
    ensures
        cycle_target(state, origin, direction) is Some,
{
    let c = state.find_container(origin)->0;
    let wanted = |id: ContainerId| is_window_in_state(state, id, window.state);
    let windows = cycle_of(state, c);
    assert(windows == workspace.descendants@.filter(wanted));
    assert(wanted(origin));
    assert(wanted(other));
    lemma_filter_keeps(workspace.descendants@, wanted, origin);
    lemma_filter_keeps(workspace.descendants@, wanted, other);
    windows.index_of_first_ensures(origin);
    let a = choose|a: int| 0 <= a < windows.len() && windows[a] == origin;
    let b = choose|b: int| 0 <= b < windows.len() && windows[b] == other;
    assert(a != b);
}

/// From a minimized window, from what is no window, and from a window that has
/// no like in its workspace, focus does not move.
pub proof fn law_without_another_window_of_the_kind_there_is_no_target(
    state: WmState,
    origin: ContainerId,
    direction: FocusCycleDirection,
)
    requires
        ({
            ||| state.find_window(origin) is None
            ||| state.find_window(origin)->0.state is Minimized
            ||| state.workspace_of(state.find_container(origin)->0) is None
            ||| {
                let workspace = state.workspace_of(state.find_container(origin)->0)->0;
                &&& workspace.descendants@.no_duplicates()
                &&& forall|other: ContainerId| #[trigger]
                    workspace.descendants@.contains(other) && other != origin ==> !is_held_like(
                        state,
                        other,
                        state.find_window(origin)->0,
                    )
            }
        }),
    ensures
        cycle_target(state, origin, direction) is None,
{
    Seq::<ContainerId>::empty().index_of_first_ensures(origin);
    if let Some(c) = state.find_container(origin) {
        if let (Some(w), Some(workspace)) = (c.window, state.workspace_of(c)) {
            let wanted = |id: ContainerId| is_window_in_state(state, id, w.state);
            let windows = cycle_of(state, c);
            if !(w.state is Minimized) {
                assert(windows == workspace.descendants@.filter(wanted));
                if windows.len() >= 2 {
                    lemma_filter_no_duplicates(workspace.descendants@, wanted);
                    let k: int = if windows[0] == origin {
                        1
                    } else {
                        0
                    };
                    workspace.descendants@.lemma_filter_pred(wanted, k);
                    assert(windows.contains(windows[k]));
                    workspace.descendants@.lemma_filter_contains_rev(wanted, windows[k]);
                    assert(windows[0] != windows[1]);
                    assert(is_held_like(state, windows[k], w));
                }
            }
        }
    }
}

/// How far it is from one place of a list to another, going on and wrapping at
/// the end.
pub open spec fn distance(from: int, to: int, count: int) -> int {
    if to > from {
        to - from
    } else {
        to - from + count
    }
}

/// Focus goes to the nearest window in its direction, by the order of the tree
/// and wrapping at both ends: no other window of the workspace that is held like
/// the origin is nearer.
pub proof fn law_focus_goes_to_the_nearest_window(
    state: WmState,
    origin: ContainerId,
    workspace: Workspace,
    window: Window,
    direction: FocusCycleDirection,
    i: int,
    j: int,
    k: int,
)
    requires
        is_listed_window(state, origin, workspace, window),
        workspace.descendants@.no_duplicates(),
        0 <= i < workspace.descendants@.len(),
        workspace.descendants@[i] == origin,
        0 <= j < workspace.descendants@.len(),
        cycle_target(state, origin, direction) == Some(workspace.descendants@[j]),
        0 <= k < workspace.descendants@.len(),
        k != i,
        is_held_like(state, workspace.descendants@[k], window),
    ensures
        ({
            let count = workspace.descendants@.len() as int;
            &&& j != i
            &&& is_held_like(state, workspace.descendants@[j], window)
            &&& direction is Next ==> distance(i, j, count) <= distance(i, k, count)
            &&& direction is Previous ==> distance(j, i, count) <= distance(k, i, count)
        }),
{
    let c = state.find_container(origin)->0;
    let all = workspace.descendants@;
    let wanted = |id: ContainerId| is_window_in_state(state, id, window.state);
    let windows = cycle_of(state, c);
    Seq::<ContainerId>::empty().index_of_first_ensures(origin);
    assert(windows == all.filter(wanted));
    windows.index_of_first_ensures(origin);
    let a = windows.index_of_first(origin)->0;
    let b = cycle_index(a, windows.len(), direction);
    lemma_cycle_index(a, windows.len(), direction);
    all.lemma_filter_pred(wanted, b);
    assert(wanted(all[k]));
    lemma_filter_keeps(all, wanted, all[k]);
    let q = choose|q: int| 0 <= q < windows.len() && windows[q] == all[k];
    lemma_filter_no_duplicates(all, wanted);
    if windows.len() > 1 {
        vstd::arithmetic::div_mod::lemma_small_mod(0, windows.len());
        if a + 1 < windows.len() {
            vstd::arithmetic::div_mod::lemma_small_mod((a + 1) as nat, windows.len());
        } else {
            vstd::arithmetic::div_mod::lemma_mod_self_0(windows.len() as int);
        }
    }
    lemma_filter_order_either(all, wanted, a, b, i, j);
    lemma_filter_order_either(all, wanted, a, q, i, k);
    lemma_filter_order_either(all, wanted, b, q, j, k);
}

/// Filtering keeps what is wanted.
proof fn lemma_filter_keeps(
    ids: Seq<ContainerId>,
    wanted: spec_fn(ContainerId) -> bool,
    id: ContainerId,
)
    requires
        ids.contains(id),
        wanted(id),
    ensures
        ids.filter(wanted).contains(id),
{
    let n = choose|n: int| 0 <= n < ids.len() && ids[n] == id;
    ids.lemma_filter_contains(wanted, n);
}

/// Filtering keeps the order.
proof fn lemma_filter_order(
    ids: Seq<ContainerId>,
    wanted: spec_fn(ContainerId) -> bool,
    a: int,
    b: int,
    x: int,
    y: int,
)
    requires
        ids.no_duplicates(),
        0 <= a < b < ids.filter(wanted).len(),
        0 <= x < ids.len(),
        0 <= y < ids.len(),
        ids[x] == ids.filter(wanted)[a],
        ids[y] == ids.filter(wanted)[b],
    ensures
        x < y,
    decreases ids.len(),
{
    reveal(Seq::filter);
    let rest = ids.drop_last();
    let kept = rest.filter(wanted);
    assert(kept.contains(kept[a]));
    rest.lemma_filter_contains_rev(wanted, kept[a]);
    let n = choose|n: int| 0 <= n < rest.len() && rest[n] == kept[a];
    assert(ids[n] == ids[x]);
    assert(x == n);
    if b < kept.len() {
        assert(kept.contains(kept[b]));
        rest.lemma_filter_contains_rev(wanted, kept[b]);
        let m = choose|m: int| 0 <= m < rest.len() && rest[m] == kept[b];
        assert(ids[m] == ids[y]);
        assert(y == m);
        lemma_filter_order(rest, wanted, a, b, x, y);
    } else {
        assert(ids[y] == ids[ids.len() - 1]);
        assert(y == ids.len() - 1);
    }
}

/// Filtering keeps the order, whichever of two comes first.
proof fn lemma_filter_order_either(
    ids: Seq<ContainerId>,
    wanted: spec_fn(ContainerId) -> bool,
    a: int,
    b: int,
    x: int,
    y: int,
)
    requires
        ids.no_duplicates(),
        0 <= a < ids.filter(wanted).len(),
        0 <= b < ids.filter(wanted).len(),
        0 <= x < ids.len(),
        0 <= y < ids.len(),
        ids[x] == ids.filter(wanted)[a],
        ids[y] == ids.filter(wanted)[b],
    ensures
        a < b <==> x < y,
        a == b <==> x == y,
{
    lemma_filter_no_duplicates(ids, wanted);
    if a < b {
        lemma_filter_order(ids, wanted, a, b, x, y);
    } else if b < a {
        lemma_filter_order(ids, wanted, b, a, y, x);
    }
}

} // verus!
