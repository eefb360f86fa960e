//! Which windows are redrawn or brought forward, and in what order.

use vstd::prelude::*;
use vstd::relations::{sorted_by, total_ordering};

use crate::error::WmError;
use crate::state::{
    contains, position, Container, ContainerId, WindowState, WmState, Workspace,
};

verus! {

/// The identities of a list, each where it first occurs.
pub open spec fn unique(ids: Seq<ContainerId>) -> Seq<ContainerId>
    decreases ids.len(),
{
    if ids.len() == 0 {
        ids
    } else {
        let rest = unique(ids.drop_last());
        if rest.contains(ids.last()) {
            rest
        } else {
            rest.push(ids.last())
        }
    }
}

/// The identities of a list, each where it first occurs.
pub fn dedup(ids: &Vec<ContainerId>) -> (r: Vec<ContainerId>)
    ensures
        r@ == unique(ids@),
{
    let mut r: Vec<ContainerId> = Vec::new();
    let mut i: usize = 0;
    while i < ids.len()
        invariant
            i <= ids.len(),
            r@ == unique(ids@.take(i as int)),
        decreases ids.len() - i,
    {
        proof {
            assert(ids@.take(i + 1).drop_last() =~= ids@.take(i as int));
        }
        if !contains(&r, ids[i]) {
            r.push(ids[i]);
        }
        i += 1;
    }
    proof {
        assert(ids@.take(i as int) =~= ids@);
    }
    r
}

/// Dropping repetitions keeps every identity, and keeps each just once.
pub proof fn lemma_unique(ids: Seq<ContainerId>)
    ensures
        unique(ids).no_duplicates(),
        forall|id: ContainerId| #[trigger] unique(ids).contains(id) <==> ids.contains(id),
    decreases ids.len(),
{
    if ids.len() > 0 {
        let rest = ids.drop_last();
        lemma_unique(rest);
        assert(ids =~= rest.push(ids.last()));
        assert forall|id: ContainerId| #[trigger] unique(ids).contains(id) <==> ids.contains(
            id,
        ) by {
            if ids.contains(id) {
                if id != ids.last() {
                    let i = choose|i: int| 0 <= i < ids.len() && ids[i] == id;
                    assert(rest[i] == id);
                    assert(rest.contains(id));
                    assert(unique(rest).contains(id));
                }
                if !unique(rest).contains(ids.last()) {
                    let u = unique(rest).push(ids.last());
                    assert(u[u.len() - 1] == ids.last());
                    if unique(rest).contains(id) {
                        let k = choose|k: int|
                            0 <= k < unique(rest).len() && unique(rest)[k] == id;
                        assert(u[k] == id);
                    }
                }
            }
            if unique(ids).contains(id) && id != ids.last() {
                let k = choose|k: int| 0 <= k < unique(ids).len() && unique(ids)[k] == id;
                assert(unique(rest)[k] == id);
                assert(unique(rest).contains(id));
                let i = choose|i: int| 0 <= i < rest.len() && rest[i] == id;
                assert(ids[i] == id);
            }
            if id == ids.last() {
                assert(ids[ids.len() - 1] == id);
            }
        }
    }
}

/// Whether a window is brought forward along with a window in the given state.
///
/// Only tiling and floating windows are, and only along with their like.
pub open spec fn comes_forward(state: WmState, id: ContainerId, focused: WindowState) -> bool {
    match state.find_window(id) {
        Some(w) => (w.state is Floating || w.state is Tiling) && w.state.same_state(focused),
        None => false,
    }
}

/// The windows of a workspace that are brought forward.
pub open spec fn forward_in(state: WmState, workspace: Workspace) -> Seq<ContainerId> {
    match state.focused_descendant(workspace) {
        Some(f) => {
            let focused = state.find_window(f.id)->0.state;
            workspace.descendants@.filter(|id: ContainerId| comes_forward(state, id, focused))
        },
        None => Seq::empty(),
    }
}

/// The windows of some workspaces that are brought forward, one workspace
/// after the other.
pub open spec fn forward_in_all(state: WmState, workspaces: Seq<ContainerId>) -> Seq<ContainerId>
    decreases workspaces.len(),
{
    if workspaces.len() == 0 {
        Seq::empty()
    } else {
        forward_in_all(state, workspaces.drop_last()) + match state.find_workspace(
            workspaces.last(),
        ) {
            Some(workspace) => forward_in(state, workspace),
            None => Seq::empty(),
        }
    }
}

/// The workspaces whose windows are restacked: those that were queued and,
/// where focus has changed, the one that has it.
pub open spec fn restacked_workspaces(state: WmState, focused: ContainerId) -> Seq<ContainerId> {
    unique(
        if state.pending_sync.needs_focus_update {
            state.pending_sync.workspaces_to_reorder@.push(focused)
        } else {
            state.pending_sync.workspaces_to_reorder@
        },
    )
}

/// The windows that are brought forward.
pub open spec fn forward_windows(state: WmState, focused_workspace: ContainerId) -> Seq<
    ContainerId,
> {
    forward_in_all(state, restacked_workspaces(state, focused_workspace))
}

/// Whether a window is brought forward along with a window in the given state.
fn is_brought_forward(state: &WmState, id: ContainerId, focused: &WindowState) -> (r: bool)
    ensures
        r == comes_forward(*state, id, *focused),
{
    match state.container(id) {
        Some(c) => match &c.window {
            Some(w) => matches!(w.state, WindowState::Floating(_) | WindowState::Tiling)
                && w.state.is_same_state(focused),
            None => false,
        },
        None => false,
    }
}

/// Adds the windows of a workspace that are brought forward.
fn add_forward_in(state: &WmState, workspace: &Workspace, windows: &mut Vec<ContainerId>)
    ensures
        final(windows)@ == old(windows)@ + forward_in(*state, *workspace),
{
    let focused_descendant = match state.focused_window_of(workspace) {
        Some(f) => f,
        None => {
            assert(windows@ =~= windows@ + Seq::<ContainerId>::empty());
            return;
        },
    };
    let focused_state: WindowState = match state.container(focused_descendant.id) {
        Some(c) => match &c.window {
            Some(w) => w.state,
            None => return,
        },
        None => return,
    };
    let ghost wanted = |id: ContainerId| comes_forward(*state, id, focused_state);
    let ghost before = windows@;
    let ghost all = workspace.descendants@;
    proof {
        reveal(Seq::filter);
        assert(windows@ =~= before + all.take(0).filter(wanted));
    }
    let mut i: usize = 0;
    while i < workspace.descendants.len()
        invariant
            i <= workspace.descendants.len(),
            all == workspace.descendants@,
            wanted == (|id: ContainerId| comes_forward(*state, id, focused_state)),
            windows@ == before + all.take(i as int).filter(wanted),
        decreases workspace.descendants.len() - i,
    {
        let id: ContainerId = workspace.descendants[i];
        proof {
            assert(all.take(i + 1) =~= all.take(i as int).push(id));
            all.take(i as int).lemma_filter_push(id, wanted);
        }
        if is_brought_forward(state, id, &focused_state) {
            proof {
                assert((before + all.take(i as int).filter(wanted)).push(id) =~= before
                    + all.take(i as int).filter(wanted).push(id));
            }
            windows.push(id);
        }
        i += 1;
    }
    proof {
        assert(all.take(i as int) =~= all);
    }
}

/// Finds windows that should be brought to the top of their workspace's
/// z-order.
///
/// Windows are brought to front if they match the focused window's state
/// (floating/tiling) and any of these conditions are met:
///  * Focus has changed to a different window.
///  * Focused window's state has changed (e.g. tiling -> floating).
///  * Focused window has moved to a different workspace.
pub fn windows_to_bring_to_front(focused_container: &Container, state: &WmState) -> (r: Result<
    Vec<ContainerId>,
    WmError,
>)
    ensures
        match state.workspace_of(*focused_container) {
            Some(workspace) => r matches Ok(windows) && windows@ == forward_windows(
                *state,
                workspace.id,
            ),
            None => r == Err::<Vec<ContainerId>, WmError>(WmError::NoWorkspace),
        },
{
    let focused_workspace = match state.containing_workspace(focused_container) {
        Some(workspace) => workspace.id,
        None => return Err(WmError::NoWorkspace),
    };

    // Add focused workspace if there's been a focus change.
    let mut queued: Vec<ContainerId> = state.pending_sync.workspaces_to_reorder.clone();
    proof {
        assert(queued@ =~= state.pending_sync.workspaces_to_reorder@);
    }
    if state.pending_sync.needs_focus_update {
        queued.push(focused_workspace);
    }
    let workspaces = dedup(&queued);
    let mut windows: Vec<ContainerId> = Vec::new();
    let mut i: usize = 0;
    while i < workspaces.len()
        invariant
            i <= workspaces.len(),
            windows@ == forward_in_all(*state, workspaces@.take(i as int)),
        decreases workspaces.len() - i,
    {
        proof {
            assert(workspaces@.take(i + 1).drop_last() =~= workspaces@.take(i as int));
        }
        match state.workspace(workspaces[i]) {
            Some(workspace) => add_forward_in(state, workspace, &mut windows),
            None => {
                assert(windows@ =~= windows@ + Seq::<ContainerId>::empty());
            },
        }
        i += 1;
    }
    proof {
        assert(workspaces@.take(i as int) =~= workspaces@);
    }
    Ok(windows)
}

/// What windows are sorted by before they are updated.
pub fn redraw_sort_key(will_be_visible: bool, focus_order: Option<usize>) -> (r: (
    bool,
    Option<usize>,
))
    ensures
        r == (will_be_visible, focus_order),
{
    (will_be_visible, focus_order)
}

/// Whether a container lies in a workspace that is displayed.
pub open spec fn on_display(state: WmState, id: ContainerId) -> bool {
    match state.find_container(id) {
        Some(c) => match state.workspace_of(c) {
            Some(workspace) => workspace.is_displayed,
            None => false,
        },
        None => false,
    }
}

/// What a window is sorted by: whether its workspace is displayed, then where
/// it stands in the order of focus, if it does.
pub open spec fn sort_key(state: WmState, id: ContainerId) -> (bool, Option<int>) {
    (on_display(state, id), state.focus_order@.index_of_first(id))
}

/// Whether one key comes before another.
pub open spec fn key_before(a: (bool, Option<int>), b: (bool, Option<int>)) -> bool {
    if a.0 != b.0 {
        b.0
    } else {
        match (a.1, b.1) {
            (None, Some(_)) => true,
            (Some(x), Some(y)) => x < y,
            _ => false,
        }
    }
}

/// Whether one window is not sorted behind another: by key and, where the keys
/// are equal, by which is listed first.
pub open spec fn sorts_before(
    state: WmState,
    windows: Seq<ContainerId>,
    a: ContainerId,
    b: ContainerId,
) -> bool {
    let (key_a, key_b) = (sort_key(state, a), sort_key(state, b));
    ||| key_before(key_a, key_b)
    ||| key_a == key_b && listed_before(windows, a, b)
}

/// Whether one identity is listed before another. Those that are not listed
/// come first, by their value.
pub open spec fn listed_before(
    windows: Seq<ContainerId>,
    a: ContainerId,
    b: ContainerId,
) -> bool {
    match (windows.index_of_first(a), windows.index_of_first(b)) {
        (None, None) => a <= b,
        (None, Some(_)) => true,
        (Some(_), None) => false,
        (Some(i), Some(j)) => i <= j,
    }
}

/// The windows sorted by key, those with equal keys as they are listed.
pub open spec fn sorted_windows(state: WmState, windows: Seq<ContainerId>) -> Seq<ContainerId> {
    windows.sort_by(|a: ContainerId, b: ContainerId| sorts_before(state, windows, a, b))
}

/// The order by which windows are sorted is total.
proof fn lemma_order_is_total(state: WmState, windows: Seq<ContainerId>)
    ensures
        total_ordering(
            |a: ContainerId, b: ContainerId| sorts_before(state, windows, a, b),
        ),
{
    let leq = |a: ContainerId, b: ContainerId| sorts_before(state, windows, a, b);
    assert forall|a: ContainerId, b: ContainerId| #[trigger] leq(a, b) && #[trigger] leq(
        b,
        a,
    ) implies a == b by {
        windows.index_of_first_ensures(a);
        windows.index_of_first_ensures(b);
    }
}

/// Whether one key comes before another.
fn is_key_before(a: &(bool, Option<usize>), b: &(bool, Option<usize>)) -> (r: bool)
    ensures
        r == key_before(key_view(*a), key_view(*b)),
{
    if a.0 != b.0 {
        return b.0;
    }
    match (a.1, b.1) {
        (None, Some(_)) => true,
        (Some(x), Some(y)) => x < y,
        _ => false,
    }
}

/// The key that a pair of machine values stands for.
pub open spec fn key_view(key: (bool, Option<usize>)) -> (bool, Option<int>) {
    (
        key.0,
        match key.1 {
            Some(i) => Some(i as int),
            None => None,
        },
    )
}

/// What a window is sorted by.
fn sort_key_of(state: &WmState, id: ContainerId) -> (r: (bool, Option<usize>))
    ensures
        key_view(r) == sort_key(*state, id),
{
    let will_be_visible = match state.container(id) {
        Some(c) => match state.containing_workspace(c) {
            Some(workspace) => workspace.is_displayed,
            None => false,
        },
        None => false,
    };
    redraw_sort_key(will_be_visible, position(&state.focus_order, id))
}

/// Sorts windows for being updated.
///
/// Windows are updated in the reverse of this order. Those of displayed
/// workspaces come last, so that they are revealed before windows of the
/// outgoing workspace are hidden. This prevents the desktop from flashing
/// between the two. Within each group the order of focus is kept.
pub fn sort_for_redraw(state: &WmState, windows: &Vec<ContainerId>) -> (r: Vec<ContainerId>)
    requires
        windows@.no_duplicates(),
    ensures
        r@ == sorted_windows(*state, windows@),
{
    let ghost leq = |a: ContainerId, b: ContainerId| sorts_before(*state, windows@, a, b);
    let mut sorted: Vec<ContainerId> = Vec::new();
    let mut keys: Vec<(bool, Option<usize>)> = Vec::new();
    let mut i: usize = 0;
    proof {
        assert(sorted@ =~= windows@.take(0));
    }
    while i < windows.len()
        invariant
            i <= windows.len(),
            windows@.no_duplicates(),
            leq == (|a: ContainerId, b: ContainerId| sorts_before(*state, windows@, a, b)),
            sorted@.len() == keys@.len(),
            sorted@.to_multiset() == windows@.take(i as int).to_multiset(),
            forall|k: int|
                0 <= k < sorted@.len() ==> key_view(#[trigger] keys@[k]) == sort_key(
                    *state,
                    sorted@[k],
                ),
            forall|k: int|
                0 <= k < sorted@.len() ==> windows@.take(i as int).contains(
                    #[trigger] sorted@[k],
                ),
            sorted_by(sorted@, leq),
        decreases windows.len() - i,
    {
        let id: ContainerId = windows[i];
        let key = sort_key_of(state, id);
        let ghost before = sorted@;
        let mut at: usize = sorted.len();
        while at > 0 && is_key_before(&key, &keys[at - 1])
            invariant
                at <= sorted.len(),
                sorted@ == before,
                sorted@.len() == keys@.len(),
                forall|k: int|
                    at <= k < sorted@.len() ==> key_before(
                        key_view(key),
                        key_view(#[trigger] keys@[k]),
                    ),
            decreases at,
        {
            at -= 1;
        }
        proof {
            lemma_first_in(windows@, i as int);
            assert forall|k: int| 0 <= k < before.len() implies #[trigger] listed_before(
                windows@,
                before[k],
                id,
            ) by {
                assert(windows@.take(i as int).contains(before[k]));
                let j = choose|j: int| 0 <= j < i && windows@.take(i as int)[j] == before[k];
                lemma_first_in(windows@, j);
            }
            lemma_inserted(*state, windows@, before, keys@.map_values(
                |key: (bool, Option<usize>)| key_view(key),
            ), id, at as int);
            assert(windows@.take(i + 1) =~= windows@.take(i as int).push(id));
            broadcast use vstd::seq_lib::group_to_multiset_ensures;
            vstd::seq_lib::to_multiset_insert(before, at as int, id);
            vstd::seq_lib::to_multiset_build(windows@.take(i as int), id);
        }
        sorted.insert(at, id);
        keys.insert(at, key);
        proof {
            assert forall|k: int| 0 <= k < sorted@.len() implies windows@.take(i + 1).contains(
                #[trigger] sorted@[k],
            ) by {
                if k == at {
                    assert(windows@.take(i + 1)[i as int] == id);
                } else {
                    let b = if k < at { k } else { k - 1 };
                    assert(sorted@[k] == before[b]);
                    assert(windows@.take(i as int).contains(before[b]));
                    let j = choose|j: int| 0 <= j < i && windows@.take(i as int)[j] == before[b];
                    assert(windows@.take(i + 1)[j] == before[b]);
                }
            }
        }
        i += 1;
    }
    proof {
        assert(windows@.take(i as int) =~= windows@);
        lemma_order_is_total(*state, windows@);
        windows@.lemma_sort_by_ensures(leq);
        vstd::seq_lib::lemma_sorted_unique(sorted@, windows@.sort_by(leq), leq);
    }
    sorted
}

/// A list without repetitions has each identity first where it has it.
proof fn lemma_first_in(windows: Seq<ContainerId>, i: int)
    requires
        windows.no_duplicates(),
        0 <= i < windows.len(),
    ensures
        windows.index_of_first(windows[i]) == Some(i),
{
    windows.index_of_first_ensures(windows[i]);
}

/// A window inserted behind every window whose key is not greater, and which
/// is listed behind all of them, leaves the windows sorted.
proof fn lemma_inserted(
    state: WmState,
    windows: Seq<ContainerId>,
    sorted: Seq<ContainerId>,
    keys: Seq<(bool, Option<int>)>,
    id: ContainerId,
    at: int,
)
    requires
        sorted_by(sorted, |a: ContainerId, b: ContainerId| sorts_before(state, windows, a, b)),
        keys.len() == sorted.len(),
        0 <= at <= sorted.len(),
        forall|k: int|
            0 <= k < sorted.len() ==> #[trigger] keys[k] == sort_key(state, sorted[k]),
        forall|k: int|
            0 <= k < sorted.len() ==> #[trigger] listed_before(windows, sorted[k], id),
        forall|k: int|
            at <= k < sorted.len() ==> key_before(sort_key(state, id), #[trigger] keys[k]),
        at > 0 ==> !key_before(sort_key(state, id), keys[at - 1]),
    ensures
        sorted_by(
            sorted.insert(at, id),
            |a: ContainerId, b: ContainerId| sorts_before(state, windows, a, b),
        ),
{
    let leq = |a: ContainerId, b: ContainerId| sorts_before(state, windows, a, b);
    let after = sorted.insert(at, id);
    assert forall|i: int, j: int| 0 <= i < j < after.len() implies #[trigger] leq(
        after[i],
        after[j],
    ) by {
        if i < at && j < at {
            assert(leq(sorted[i], sorted[j]));
        } else if i > at && j > at {
            assert(leq(sorted[i - 1], sorted[j - 1]));
        } else if i < at && j > at {
            assert(leq(sorted[i], sorted[j - 1]));
        } else if i == at {
            assert(keys[j - 1] == sort_key(state, sorted[j - 1]));
        } else {
            assert(keys[i] == sort_key(state, sorted[i]));
            assert(keys[at - 1] == sort_key(state, sorted[at - 1]));
            assert(listed_before(windows, sorted[i], id));
            if i < at - 1 {
                assert(leq(sorted[i], sorted[at - 1]));
            }
        }
    }
}

/// Windows of displayed workspaces are updated before any other. Within each
/// group, of two windows in the order of focus the one focused more recently
/// is updated later, so that it ends on top, and windows in that order are
/// updated before those that are not. No window is lost and none is added.
pub proof fn law_windows_are_revealed_before_others_are_hidden(
    state: WmState,
    windows: Seq<ContainerId>,
)
    requires
        windows.no_duplicates(),
    ensures
        ({
            let updated = sorted_windows(state, windows).reverse();
            &&& updated.to_multiset() == windows.to_multiset()
            &&& forall|i: int, j: int|
                #![trigger updated[i], updated[j]]
                0 <= i < j < updated.len() ==> {
                    let earlier = sort_key(state, updated[i]);
                    let later = sort_key(state, updated[j]);
                    &&& later.0 ==> earlier.0
                    &&& later.0 == earlier.0 ==> match (earlier.1, later.1) {
                        (Some(x), Some(y)) => x >= y,
                        (None, later) => later is None,
                        (Some(_), None) => true,
                    }
                }
        }),
{
    let leq = |a: ContainerId, b: ContainerId| sorts_before(state, windows, a, b);
    let sorted = sorted_windows(state, windows);
    let updated = sorted.reverse();
    lemma_order_is_total(state, windows);
    windows.lemma_sort_by_ensures(leq);
    sorted.lemma_reverse_to_multiset();
    assert forall|i: int, j: int|
        #![trigger updated[i], updated[j]]
        0 <= i < j < updated.len() implies {
        let (earlier, later) = (sort_key(state, updated[i]), sort_key(state, updated[j]));
        &&& later.0 ==> earlier.0
        &&& later.0 == earlier.0 ==> match (earlier.1, later.1) {
            (Some(x), Some(y)) => x >= y,
            (None, later) => later is None,
            (Some(_), None) => true,
        }
    } by {
        let n = sorted.len();
        assert(leq(sorted[n - 1 - j], sorted[n - 1 - i]));
    }
}

/// Windows with equal keys are updated in the reverse of the order in which
/// they are listed.
pub proof fn law_equal_keys_keep_their_order(
    state: WmState,
    windows: Seq<ContainerId>,
    i: int,
    j: int,
)
    requires
        windows.no_duplicates(),
        0 <= i < j < windows.len(),
        sort_key(state, windows[i]) == sort_key(state, windows[j]),
    ensures
        ({
            let sorted = sorted_windows(state, windows);
            exists|a: int, b: int|
                0 <= a < b < sorted.len() && sorted[a] == windows[i] && sorted[b] == windows[j]
        }),
{
    let leq = |a: ContainerId, b: ContainerId| sorts_before(state, windows, a, b);
    let sorted = sorted_windows(state, windows);
    lemma_order_is_total(state, windows);
    windows.lemma_sort_by_ensures(leq);
    broadcast use vstd::seq_lib::group_to_multiset_ensures;
    assert(windows.contains(windows[i]) && windows.contains(windows[j]));
    assert(windows.to_multiset().count(windows[i]) > 0);
    assert(windows.to_multiset().count(windows[j]) > 0);
    assert(sorted.contains(windows[i]) && sorted.contains(windows[j]));
    let a = choose|a: int| 0 <= a < sorted.len() && sorted[a] == windows[i];
    let b = choose|b: int| 0 <= b < sorted.len() && sorted[b] == windows[j];
    lemma_first_in(windows, i);
    lemma_first_in(windows, j);
    if b < a {
        assert(leq(sorted[b], sorted[a]));
    }
}

/// Whether a workspace is restacked: it was queued or, where focus has changed,
/// has it.
pub open spec fn is_restacked(state: WmState, focused: ContainerId, workspace: ContainerId) -> bool {
    ||| state.pending_sync.workspaces_to_reorder@.contains(workspace)
    ||| state.pending_sync.needs_focus_update && workspace == focused
}

/// Whether a window comes forward in a workspace: the workspace lists it, and it
/// is tiling like the window focused last there, or floating like it.
pub open spec fn is_raised_in(state: WmState, workspace: Workspace, id: ContainerId) -> bool {
    &&& workspace.descendants@.contains(id)
    &&& state.focused_descendant(workspace) matches Some(f) && {
        let leader = state.find_window(f.id);
        let window = state.find_window(id);
        &&& leader is Some && window is Some
        &&& {
            ||| leader->0.state is Tiling && window->0.state is Tiling
            ||| leader->0.state is Floating && window->0.state is Floating
        }
    }
}

/// A window is brought forward just if it comes forward in one of the workspaces
/// that are restacked.
pub proof fn law_windows_come_forward_with_their_like(
    state: WmState,
    focused: ContainerId,
    id: ContainerId,
)
    ensures
        forward_windows(state, focused).contains(id) <==> exists|workspace: ContainerId|
            is_restacked(state, focused, workspace) && state.find_workspace(workspace) is Some
                && #[trigger] is_raised_in(state, state.find_workspace(workspace)->0, id),
{
    let queued = state.pending_sync.workspaces_to_reorder@;
    let listed = if state.pending_sync.needs_focus_update {
        queued.push(focused)
    } else {
        queued
    };
    let workspaces = restacked_workspaces(state, focused);
    lemma_unique(listed);
    lemma_forward_in_all(state, workspaces, id);
    assert forall|workspace: ContainerId|
        workspaces.contains(workspace) <==> #[trigger] is_restacked(state, focused, workspace) by {
        assert(workspaces.contains(workspace) <==> listed.contains(workspace));
        if state.pending_sync.needs_focus_update {
            assert(listed[queued.len() as int] == focused);
            if queued.contains(workspace) {
                let n = choose|n: int| 0 <= n < queued.len() && queued[n] == workspace;
                assert(listed[n] == workspace);
            }
            if listed.contains(workspace) {
                let n = choose|n: int| 0 <= n < listed.len() && listed[n] == workspace;
                if n < queued.len() {
                    assert(queued[n] == workspace);
                }
            }
        }
    }
    if forward_windows(state, focused).contains(id) {
        let n = choose|n: int|
            0 <= n < workspaces.len() && state.find_workspace(#[trigger] workspaces[n]) is Some
                && is_raised_in(state, state.find_workspace(workspaces[n])->0, id);
        assert(workspaces.contains(workspaces[n]));
        assert(is_restacked(state, focused, workspaces[n]));
    }
    if exists|workspace: ContainerId|
        is_restacked(state, focused, workspace) && state.find_workspace(workspace) is Some
            && #[trigger] is_raised_in(state, state.find_workspace(workspace)->0, id) {
        let workspace = choose|workspace: ContainerId|
            is_restacked(state, focused, workspace) && state.find_workspace(workspace) is Some
                && #[trigger] is_raised_in(state, state.find_workspace(workspace)->0, id);
        assert(workspaces.contains(workspace));
        let n = choose|n: int| 0 <= n < workspaces.len() && workspaces[n] == workspace;
        assert(is_raised_in(state, state.find_workspace(workspaces[n])->0, id));
    }
}

proof fn lemma_forward_in_all(state: WmState, workspaces: Seq<ContainerId>, id: ContainerId)
    ensures
        forward_in_all(state, workspaces).contains(id) <==> exists|n: int|
            0 <= n < workspaces.len() && state.find_workspace(#[trigger] workspaces[n]) is Some
                && is_raised_in(state, state.find_workspace(workspaces[n])->0, id),
    decreases workspaces.len(),
{
    if workspaces.len() > 0 {
        let rest = workspaces.drop_last();
        let before = forward_in_all(state, rest);
        let all = forward_in_all(state, workspaces);
        let last = workspaces[workspaces.len() - 1];
        let here = match state.find_workspace(last) {
            Some(workspace) => forward_in(state, workspace),
            None => Seq::empty(),
        };
        assert(all == before + here);
        lemma_forward_in_all(state, rest, id);
        if let Some(workspace) = state.find_workspace(last) {
            lemma_forward_in(state, workspace, id);
        }
        if all.contains(id) {
            let k = choose|k: int| 0 <= k < all.len() && all[k] == id;
            if k < before.len() {
                assert(before[k] == id);
                let n = choose|n: int|
                    0 <= n < rest.len() && state.find_workspace(#[trigger] rest[n]) is Some
                        && is_raised_in(state, state.find_workspace(rest[n])->0, id);
                assert(workspaces[n] == rest[n]);
            } else {
                assert(here[k - before.len()] == id);
                assert(is_raised_in(state, state.find_workspace(last)->0, id));
            }
        }
        if exists|n: int|
            0 <= n < workspaces.len() && state.find_workspace(#[trigger] workspaces[n]) is Some
                && is_raised_in(state, state.find_workspace(workspaces[n])->0, id) {
            let n = choose|n: int|
                0 <= n < workspaces.len() && state.find_workspace(#[trigger] workspaces[n]) is Some
                    && is_raised_in(state, state.find_workspace(workspaces[n])->0, id);
            if n < rest.len() {
                assert(rest[n] == workspaces[n]);
                let k = choose|k: int| 0 <= k < before.len() && before[k] == id;
                assert(all[k] == id);
            } else {
                let k = choose|k: int| 0 <= k < here.len() && here[k] == id;
                assert(all[before.len() + k] == id);
            }
        }
    }
}

proof fn lemma_forward_in(state: WmState, workspace: Workspace, id: ContainerId)
    ensures
        forward_in(state, workspace).contains(id) <==> is_raised_in(state, workspace, id),
{
    if let Some(f) = state.focused_descendant(workspace) {
        let leader = state.find_window(f.id)->0.state;
        let wanted = |id: ContainerId| comes_forward(state, id, leader);
        let here = workspace.descendants@.filter(wanted);
        if here.contains(id) {
            let k = choose|k: int| 0 <= k < here.len() && here[k] == id;
            workspace.descendants@.lemma_filter_pred(wanted, k);
            workspace.descendants@.lemma_filter_contains_rev(wanted, id);
        }
        if is_raised_in(state, workspace, id) {
            assert(wanted(id));
            let n = choose|n: int|
                0 <= n < workspace.descendants@.len() && workspace.descendants@[n] == id;
            workspace.descendants@.lemma_filter_contains(wanted, n);
        }
    }
}

/// Windows are ordered for being updated by whether their workspace is
/// displayed, and then by where they first stand in the order of focus.
pub proof fn law_windows_are_ordered_by_display_and_focus(
    state: WmState,
    id: ContainerId,
    c: Container,
    i: int,
)
    requires
        state.find_container(id) == Some(c),
    ensures
        sort_key(state, id).0 <==> state.workspace_of(c) is Some && state.workspace_of(
            c,
        )->0.is_displayed,
        0 <= i < state.focus_order@.len() && state.focus_order@[i] == id && (forall|j: int|
            0 <= j < i ==> state.focus_order@[j] != id) ==> sort_key(state, id).1 == Some(i),
        !state.focus_order@.contains(id) ==> sort_key(state, id).1 is None,
{
    state.focus_order@.index_of_first_ensures(id);
    if 0 <= i < state.focus_order@.len() && state.focus_order@[i] == id && (forall|j: int|
        0 <= j < i ==> state.focus_order@[j] != id) {
        crate::state::lemma_first_at(state.focus_order@, id, i);
    }
}

} // verus!
