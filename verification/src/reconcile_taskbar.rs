//! Recovery for a taskbar raised back over a fullscreen window.
//!
//! The shell is told when a window covers the taskbar, and drops the taskbar
//! behind it. Nothing holds it there: overlays that own the taskbar drag it to
//! the top, and shell refreshes raise it outright. None of that emits an event,
//! and none of it changes anything that the window manager can see. This is
//! polled for instead.

use vstd::prelude::*;
use vstd::std_specs::iter::IteratorSpec;

use crate::fullscreen::{is_covering_in_range, is_covering_taskbar, reaches_every_edge};
use crate::probe::Reading;
use crate::reconcile_focus::{is_taskbar_class, is_taskbar_window_class};
use crate::reposition::Outcome;
use crate::state::{Container, DisplayState, TargetOs, WindowId, WmState};

verus! {

broadcast use vstd::std_specs::hash::group_hash_axioms;

/// Windows examined above a fullscreen one before giving up.
///
/// The walk ends at the top of the z-order on its own, so this only bounds the
/// case where the stack is being reordered underneath it.
pub const MAX_WINDOWS_ABOVE: usize = 500;

/// Whether a window, given as its class name and whether it is visible, is a
/// taskbar that can be seen.
pub open spec fn is_visible_taskbar(window: (String, bool)) -> bool {
    window.1 && is_taskbar_class(window.0@)
}

/// What is examined of a window: where the system cannot tell, it has no class
/// name and cannot be seen.
pub fn window_examined(class_name: Reading<String>, is_visible: Reading<bool>) -> (r: (
    String,
    bool,
))
    ensures
        r.0@ == match class_name {
            Reading::Read(class_name) => class_name@,
            _ => Seq::empty(),
        },
        r.1 == (is_visible == Reading::Read(true)),
{
    (
        match class_name {
            Reading::Read(class_name) => class_name,
            _ => String::new(),
        },
        match is_visible {
            Reading::Read(is_visible) => is_visible,
            _ => false,
        },
    )
}

/// Whether a taskbar that can be seen is among as many of the first windows as
/// are examined.
pub open spec fn taskbar_above(windows: Seq<(String, bool)>) -> bool {
    exists|i: int|
        0 <= i < windows.len() && i < MAX_WINDOWS_ABOVE && is_visible_taskbar(
            #[trigger] windows[i],
        )
}

/// Whether a walk up the stack has come to an end and found a taskbar, or come
/// to an end without, once as many windows as `examined` says have been
/// examined and `window` is the next one above. `None` where it goes on.
pub open spec fn walk_ends(examined: int, window: Option<(String, bool)>) -> Option<bool> {
    if examined >= MAX_WINDOWS_ABOVE {
        Some(false)
    } else {
        match window {
            None => Some(false),
            Some(window) => if is_visible_taskbar(window) {
                Some(true)
            } else {
                None
            },
        }
    }
}

/// Decides whether a walk up the stack has come to an end, and whether it has
/// found a taskbar.
pub fn examine_window(examined: usize, window: Option<&(String, bool)>) -> (r: Option<bool>)
    ensures
        r == walk_ends(
            examined as int,
            match window {
                Some(window) => Some(*window),
                None => None,
            },
        ),
{
    if examined >= MAX_WINDOWS_ABOVE {
        return Some(false);
    }
    match window {
        None => Some(false),
        Some(window) => if window.1 && is_taskbar_window_class(window.0.as_str()) {
            Some(true)
        } else {
            None
        },
    }
}

/// Gets whether a visible taskbar appears among the windows drawn over another
/// one, given each of those as its class name and whether it is visible,
/// ordered upwards from the window in question.
///
/// A taskbar that is hidden or cloaked is covering nothing, so it does not
/// count. What is stated holds of every iterator that hands out its items as
/// it foretells; the walk ends in any case.
#[verifier::loop_isolation(false)]
pub fn has_taskbar_above<I: Iterator<Item = (String, bool)>>(windows: I) -> (r: bool)
    ensures
        windows.obeys_prophetic_iter_laws() ==> r == taskbar_above(windows.remaining()),
{
    let ghost lawful = windows.obeys_prophetic_iter_laws();
    let ghost all = windows.remaining();
    let mut left = windows;
    let mut examined: usize = 0;
    while examined < MAX_WINDOWS_ABOVE
        invariant
            examined <= MAX_WINDOWS_ABOVE,
            left.obeys_prophetic_iter_laws() == lawful,
            lawful ==> {
                &&& examined <= all.len()
                &&& left.remaining() == all.skip(examined as int)
                &&& forall|i: int| 0 <= i < examined ==> !is_visible_taskbar(#[trigger] all[i])
            },
        decreases MAX_WINDOWS_ABOVE - examined,
    {
        let window = left.next();
        assert(lawful && window is Some ==> all[examined as int] == window->0);
        if let Some(found) = examine_window(examined, window.as_ref()) {
            return found;
        }
        examined += 1;
    }
    false
}

/// What a walk up a stack finds, from the window at `examined` on. The stack
/// may have no end.
pub open spec fn walk(stack: spec_fn(nat) -> Option<(String, bool)>, examined: nat) -> bool
    decreases MAX_WINDOWS_ABOVE - examined,
{
    match walk_ends(examined as int, stack(examined)) {
        Some(found) => found,
        None => walk(stack, examined + 1),
    }
}

/// Whether a taskbar that can be seen stands at `i` of a stack, with no gap
/// before it.
pub open spec fn taskbar_at(stack: spec_fn(nat) -> Option<(String, bool)>, i: nat) -> bool {
    &&& forall|j: nat| j <= i ==> #[trigger] stack(j) is Some
    &&& is_visible_taskbar(stack(i)->0)
}

/// Up a stack of any height, one without an end among them, a walk comes to an
/// end, and finds a taskbar just if one stands within the bound.
pub proof fn law_walk_gives_up(stack: spec_fn(nat) -> Option<(String, bool)>)
    ensures
        walk(stack, 0) <==> exists|i: nat| i < MAX_WINDOWS_ABOVE && #[trigger] taskbar_at(stack, i),
{
    lemma_walk(stack, 0);
}

/// The stack that holds some windows and nothing above them.
pub open spec fn stack_of(windows: Seq<(String, bool)>) -> spec_fn(nat) -> Option<(String, bool)> {
    |i: nat|
        if i < windows.len() {
            Some(windows[i as int])
        } else {
            None
        }
}

/// What is found among some windows is what a walk up the stack of them finds.
pub proof fn law_walk_finds_what_is_above(windows: Seq<(String, bool)>)
    ensures
        taskbar_above(windows) == walk(stack_of(windows), 0),
{
    let stack = stack_of(windows);
    law_walk_gives_up(stack);
    if taskbar_above(windows) {
        let i = choose|i: int|
            0 <= i < windows.len() && i < MAX_WINDOWS_ABOVE && is_visible_taskbar(
                #[trigger] windows[i],
            );
        assert(taskbar_at(stack, i as nat));
    }
    if walk(stack, 0) {
        let i = choose|i: nat| i < MAX_WINDOWS_ABOVE && #[trigger] taskbar_at(stack, i);
        assert(stack(i) is Some);
        assert(is_visible_taskbar(windows[i as int]));
    }
}

proof fn lemma_walk(stack: spec_fn(nat) -> Option<(String, bool)>, examined: nat)
    requires
        examined <= MAX_WINDOWS_ABOVE,
        forall|j: nat|
            j < examined ==> (#[trigger] stack(j) matches Some(window) && !is_visible_taskbar(
                window,
            )),
    ensures
        walk(stack, examined) <==> exists|i: nat|
            i < MAX_WINDOWS_ABOVE && #[trigger] taskbar_at(stack, i),
    decreases MAX_WINDOWS_ABOVE - examined,
{
    match walk_ends(examined as int, stack(examined)) {
        Some(true) => {
            assert(taskbar_at(stack, examined));
        },
        Some(false) => {
            assert forall|i: nat| i < MAX_WINDOWS_ABOVE implies !#[trigger] taskbar_at(
                stack,
                i,
            ) by {
                if i < examined {
                    assert(stack(i) is Some);
                } else if examined < MAX_WINDOWS_ABOVE {
                    assert(stack(examined) is None);
                }
            }
        },
        None => {
            lemma_walk(stack, examined + 1);
        },
    }
}

/// What to do about taskbars raised over fullscreen windows.
#[derive(Debug)]
pub enum TaskbarRecovery {
    /// Look whether the taskbar is drawn over a window.
    LookAbove(WindowId),
    /// Tell the shell of windows anew.
    Remark(Vec<WindowId>),
}

/// Whether a container stands for a native window that covers the taskbar.
pub open spec fn covers_as(state: WmState, c: Container, native: WindowId) -> bool {
    c.window matches Some(w) && w.native == native && state.taskbar_covered(c)
}

/// The windows among `containers` that the shell was told of and that are still
/// on screen and covering the taskbar.
pub open spec fn holding_down(state: WmState, containers: Seq<Container>) -> Seq<WindowId>
    decreases containers.len(),
{
    if containers.len() == 0 {
        Seq::empty()
    } else {
        let rest = holding_down(state, containers.drop_last());
        match containers.last().window {
            Some(w) => if state.marked(w.native) && state.taskbar_covered(containers.last()) {
                rest.push(w.native)
            } else {
                rest
            },
            None => rest,
        }
    }
}

/// The windows that the taskbar may have been raised over.
pub open spec fn taskbar_suspects(state: WmState) -> Seq<WindowId> {
    if state.os != TargetOs::Windows || state.is_paused {
        Seq::empty()
    } else {
        holding_down(state, state.containers@)
    }
}

/// Those of the windows that the taskbar was found drawn over.
pub open spec fn found_behind(windows: Seq<WindowId>, behind: Seq<bool>) -> Seq<WindowId>
    decreases windows.len(),
{
    if windows.len() == 0 {
        Seq::empty()
    } else {
        let rest = found_behind(windows.drop_last(), behind);
        if behind[windows.len() - 1] {
            rest.push(windows.last())
        } else {
            rest
        }
    }
}

proof fn lemma_nothing_marked(state: WmState, containers: Seq<Container>)
    requires
        forall|native: WindowId| !#[trigger] state.marked(native),
    ensures
        holding_down(state, containers) == Seq::<WindowId>::empty(),
    decreases containers.len(),
{
    if containers.len() > 0 {
        lemma_nothing_marked(state, containers.drop_last());
    }
}

/// Whether it can be told which windows the taskbar may have been raised over:
/// of each that the shell was told of, where this is looked into at all, it can
/// be told if it covers the taskbar.
pub open spec fn suspects_fit(state: WmState) -> bool {
    state.os == TargetOs::Windows && !state.is_paused ==> forall|i: int|
        0 <= i < state.containers@.len() && is_marked(state, #[trigger] state.containers@[i])
            ==> state.covering_fits(state.containers@[i])
}

/// Whether a container is a window that the shell was told of.
pub open spec fn is_marked(state: WmState, c: Container) -> bool {
    c.window matches Some(w) && state.marked(w.native)
}

/// Whether it can be told which windows the taskbar may have been raised over
/// without leaving the coordinate range.
pub fn are_suspects_in_range(state: &WmState) -> (r: bool)
    ensures
        r == suspects_fit(*state),
{
    if state.os != TargetOs::Windows || state.is_paused {
        return true;
    }
    let mut i: usize = 0;
    while i < state.containers.len()
        invariant
            i <= state.containers.len(),
            state.os == TargetOs::Windows && !state.is_paused,
            forall|j: int|
                0 <= j < i && is_marked(*state, #[trigger] state.containers@[j])
                    ==> state.covering_fits(state.containers@[j]),
        decreases state.containers.len() - i,
    {
        let container = &state.containers[i];
        if let Some(window) = &container.window {
            if state.windows_marked_fullscreen.contains(&window.native) && !is_covering_in_range(
                container,
                state,
            ) {
                assert(is_marked(*state, state.containers@[i as int]));
                return false;
            }
        }
        i += 1;
    }
    true
}

/// Finds the windows that the taskbar may have been raised over.
fn find_suspects(state: &WmState) -> (r: Vec<WindowId>)
    requires
        suspects_fit(*state),
    ensures
        r@ == taskbar_suspects(*state),
{
    let mut suspects: Vec<WindowId> = Vec::new();
    // Usually the shell has not been told of anything.
    if state.os != TargetOs::Windows || state.is_paused
        || state.windows_marked_fullscreen.is_empty() {
        proof {
            if state.windows_marked_fullscreen@.is_empty() {
                assert(forall|native: WindowId| !#[trigger] state.marked(native));
                lemma_nothing_marked(*state, state.containers@);
            }
        }
        return suspects;
    }
    let mut i: usize = 0;
    while i < state.containers.len()
        invariant
            i <= state.containers.len(),
            state.os == TargetOs::Windows && !state.is_paused,
            suspects_fit(*state),
            suspects@ == holding_down(*state, state.containers@.take(i as int)),
        decreases state.containers.len() - i,
    {
        proof {
            assert(state.containers@.take(i + 1).drop_last() =~= state.containers@.take(i as int));
        }
        let container = &state.containers[i];
        if let Some(window) = &container.window {
            if state.windows_marked_fullscreen.contains(&window.native) && is_covering_taskbar(
                container,
                state,
            ) {
                suspects.push(window.native);
            }
        }
        i += 1;
    }
    proof {
        assert(state.containers@.take(i as int) =~= state.containers@);
    }
    suspects
}

/// Decides what to do about taskbars raised over fullscreen windows, given
/// whether the taskbar was found drawn over the windows that were looked at so
/// far.
///
/// The taskbar is only put back under a window that is still on screen and
/// still covering it. What the window manager believes does not change: the
/// windows were fullscreen before this and still are.
pub fn reconcile_stranded_taskbar(state: &WmState, behind: &Vec<bool>) -> (r: TaskbarRecovery)
    requires
        suspects_fit(*state),
    ensures
        match r {
            TaskbarRecovery::LookAbove(window) => {
                &&& behind@.len() < taskbar_suspects(*state).len()
                &&& window == taskbar_suspects(*state)[behind@.len() as int]
            },
            TaskbarRecovery::Remark(windows) => {
                &&& behind@.len() >= taskbar_suspects(*state).len()
                &&& windows@ == found_behind(taskbar_suspects(*state), behind@)
            },
        },
{
    let suspects = find_suspects(state);
    if behind.len() < suspects.len() {
        return TaskbarRecovery::LookAbove(suspects[behind.len()]);
    }
    let mut stranded: Vec<WindowId> = Vec::new();
    let mut i: usize = 0;
    while i < suspects.len()
        invariant
            i <= suspects.len() <= behind.len(),
            stranded@ == found_behind(suspects@.take(i as int), behind@),
        decreases suspects.len() - i,
    {
        proof {
            assert(suspects@.take(i + 1).drop_last() =~= suspects@.take(i as int));
        }
        if behind[i] {
            stranded.push(suspects[i]);
        }
        i += 1;
    }
    proof {
        assert(suspects@.take(i as int) =~= suspects@);
    }
    TaskbarRecovery::Remark(stranded)
}

/// What to do next to tell the shell of a window anew.
#[derive(PartialEq, Eq, Structural, Clone, Copy, Debug)]
pub enum RemarkAction {
    /// Tell the shell whether the window is fullscreen.
    Mark(bool),
    /// The shell could not be told.
    Failed,
    Done,
}

/// Decides what to do next to tell the shell of a window anew, given what came
/// of dropping the mark and of asserting it.
///
/// The shell ignores a mark repeating what it already holds, so the mark has to
/// be dropped first for the second call to be a change.
pub fn next_remark_action(dropped: Outcome, asserted: Outcome) -> (r: RemarkAction)
    ensures
        r == match (dropped, asserted) {
            (Outcome::Pending, _) => RemarkAction::Mark(false),
            (Outcome::Failed, _) => RemarkAction::Failed,
            (Outcome::Answered(_), Outcome::Pending) => RemarkAction::Mark(true),
            (Outcome::Answered(_), Outcome::Failed) => RemarkAction::Failed,
            (Outcome::Answered(_), Outcome::Answered(_)) => RemarkAction::Done,
        },
{
    match (dropped, asserted) {
        (Outcome::Pending, _) => RemarkAction::Mark(false),
        (Outcome::Failed, _) => RemarkAction::Failed,
        (Outcome::Answered(_), Outcome::Pending) => RemarkAction::Mark(true),
        (Outcome::Answered(_), Outcome::Failed) => RemarkAction::Failed,
        (Outcome::Answered(_), Outcome::Answered(_)) => RemarkAction::Done,
    }
}

/// A taskbar that cannot be seen covers nothing.
pub proof fn law_hidden_taskbar_covers_nothing(windows: Seq<(String, bool)>)
    requires
        forall|i: int|
            0 <= i < windows.len() && is_taskbar_class((#[trigger] windows[i]).0@)
                ==> !windows[i].1,
    ensures
        !taskbar_above(windows),
{
}

/// The windows past the last one examined make no difference.
pub proof fn law_walk_is_bounded(windows: Seq<(String, bool)>, more: Seq<(String, bool)>)
    requires
        windows.len() >= MAX_WINDOWS_ABOVE,
    ensures
        taskbar_above(windows + more) == taskbar_above(windows),
{
    if taskbar_above(windows + more) {
        let i = choose|i: int|
            0 <= i < (windows + more).len() && i < MAX_WINDOWS_ABOVE && is_visible_taskbar(
                #[trigger] (windows + more)[i],
            );
        assert(is_visible_taskbar(windows[i]));
    }
    if taskbar_above(windows) {
        let i = choose|i: int|
            0 <= i < windows.len() && i < MAX_WINDOWS_ABOVE && is_visible_taskbar(
                #[trigger] windows[i],
            );
        assert(is_visible_taskbar((windows + more)[i]));
    }
}

/// Within the bound, a taskbar is found however many windows lie before it.
pub proof fn law_buried_taskbar_is_found(
    windows: Seq<(String, bool)>,
    taskbar: (String, bool),
)
    requires
        windows.len() < MAX_WINDOWS_ABOVE,
        is_visible_taskbar(taskbar),
    ensures
        taskbar_above(windows.push(taskbar)),
{
    assert(windows.push(taskbar)[windows.len() as int] == taskbar);
}

/// Only windows that the shell was told of, and that still cover the taskbar,
/// are ever suspected of lying behind it.
pub proof fn law_only_covering_windows_hold_the_taskbar_down(state: WmState, window: WindowId)
    requires
        taskbar_suspects(state).contains(window),
    ensures
        state.marked(window),
        exists|i: int|
            0 <= i < state.containers@.len() && covers_as(
                state,
                #[trigger] state.containers@[i],
                window,
            ),
{
    lemma_held_down(state, state.containers@, window);
}

proof fn lemma_held_down(state: WmState, containers: Seq<Container>, window: WindowId)
    requires
        holding_down(state, containers).contains(window),
    ensures
        state.marked(window),
        exists|i: int|
            0 <= i < containers.len() && covers_as(state, #[trigger] containers[i], window),
    decreases containers.len(),
{
    if containers.len() > 0 {
        let rest = containers.drop_last();
        let held = holding_down(state, rest);
        if held.contains(window) {
            lemma_held_down(state, rest, window);
            let i = choose|i: int|
                0 <= i < rest.len() && covers_as(state, #[trigger] rest[i], window);
            assert(containers[i] == rest[i]);
        } else {
            let c = containers[containers.len() - 1];
            assert(covers_as(state, c, window));
        }
    }
}

/// Only windows that the taskbar was found drawn over are told of anew.
pub proof fn law_only_suspects_are_remarked(
    suspects: Seq<WindowId>,
    behind: Seq<bool>,
    window: WindowId,
)
    requires
        behind.len() >= suspects.len(),
        found_behind(suspects, behind).contains(window),
    ensures
        exists|i: int| 0 <= i < suspects.len() && #[trigger] suspects[i] == window && behind[i],
    decreases suspects.len(),
{
    if suspects.len() > 0 {
        let rest = suspects.drop_last();
        if found_behind(rest, behind).contains(window) {
            law_only_suspects_are_remarked(rest, behind, window);
            let i = choose|i: int| 0 <= i < rest.len() && #[trigger] rest[i] == window && behind[i];
            assert(suspects[i] == window);
        } else {
            assert(suspects[suspects.len() - 1] == window);
        }
    }
}

/// While the window manager is paused no window is told of anew.
pub proof fn law_paused_window_manager_leaves_the_taskbar(state: WmState, behind: Seq<bool>)
    requires
        state.is_paused,
    ensures
        found_behind(taskbar_suspects(state), behind) == Seq::<WindowId>::empty(),
{
}

/// Whether a container is a window that the shell was told is fullscreen, that is
/// on screen or about to be, and that reaches every edge of a monitor with a
/// strip reserved for the taskbar.
pub open spec fn holds_the_taskbar_down(state: WmState, c: Container) -> bool {
    c.window matches Some(w) && {
        &&& state.windows_marked_fullscreen@.contains(w.native)
        &&& w.display_state == DisplayState::Shown || w.display_state == DisplayState::Showing
        &&& state.monitor_of(c) matches Some(m) && m.bounds != m.working_area
            && reaches_every_edge(w.native_properties.frame, m.bounds)
    }
}

/// On Windows and unless it is paused, the window manager looks into every
/// window that holds the taskbar down, and into no other.
pub proof fn law_every_window_over_the_taskbar_is_looked_into(state: WmState, native: WindowId)
    requires
        state.os == TargetOs::Windows,
        !state.is_paused,
    ensures
        taskbar_suspects(state).contains(native) <==> exists|i: int|
            0 <= i < state.containers@.len() && holds_the_taskbar_down(
                state,
                #[trigger] state.containers@[i],
            ) && state.containers@[i].window->0.native == native,
{
    lemma_holding_down(state, state.containers@, native);
}

proof fn lemma_holding_down(state: WmState, containers: Seq<Container>, native: WindowId)
    ensures
        holding_down(state, containers).contains(native) <==> exists|i: int|
            0 <= i < containers.len() && holds_the_taskbar_down(state, #[trigger] containers[i])
                && containers[i].window->0.native == native,
    decreases containers.len(),
{
    if containers.len() > 0 {
        let rest = containers.drop_last();
        let held = holding_down(state, rest);
        let all = holding_down(state, containers);
        let last = containers[containers.len() - 1];
        lemma_holding_down(state, rest, native);
        assert(holds_the_taskbar_down(state, last) == (last.window is Some && state.marked(
            last.window->0.native,
        ) && state.taskbar_covered(last)));
        if all.contains(native) {
            let k = choose|k: int| 0 <= k < all.len() && all[k] == native;
            if k < held.len() {
                assert(held[k] == native);
                let i = choose|i: int|
                    0 <= i < rest.len() && holds_the_taskbar_down(state, #[trigger] rest[i])
                        && rest[i].window->0.native == native;
                assert(holds_the_taskbar_down(state, containers[i]));
            } else {
                assert(holds_the_taskbar_down(state, last));
            }
        }
        if exists|i: int|
            0 <= i < containers.len() && holds_the_taskbar_down(state, #[trigger] containers[i])
                && containers[i].window->0.native == native {
            let i = choose|i: int|
                0 <= i < containers.len() && holds_the_taskbar_down(state, #[trigger] containers[i])
                    && containers[i].window->0.native == native;
            if i < rest.len() {
                assert(holds_the_taskbar_down(state, rest[i]));
                let k = choose|k: int| 0 <= k < held.len() && held[k] == native;
                assert(all[k] == native);
            } else {
                assert(all[all.len() - 1] == native);
            }
        }
    }
}

/// Anywhere but on Windows, no window is looked into.
pub proof fn law_elsewhere_no_taskbar_is_looked_for(state: WmState)
    requires
        state.os != TargetOs::Windows,
    ensures
        taskbar_suspects(state).len() == 0,
{
}

/// Every window that the taskbar was found drawn over is told of anew.
pub proof fn law_every_window_found_behind_is_remarked(
    suspects: Seq<WindowId>,
    behind: Seq<bool>,
    i: int,
)
    requires
        behind.len() >= suspects.len(),
        0 <= i < suspects.len(),
        behind[i],
    ensures
        found_behind(suspects, behind).contains(suspects[i]),
    decreases suspects.len(),
{
    let all = found_behind(suspects, behind);
    let rest = suspects.drop_last();
    if i == suspects.len() - 1 {
        assert(all[all.len() - 1] == suspects[i]);
    } else {
        law_every_window_found_behind_is_remarked(rest, behind, i);
        let found = found_behind(rest, behind);
        let k = choose|k: int| 0 <= k < found.len() && found[k] == rest[i];
        assert(all[k] == suspects[i]);
    }
}

/// A taskbar of either kind that can be seen is found among the first five
/// hundred windows above another, and nothing else is taken for one.
pub proof fn law_taskbars_are_recognised(windows: Seq<(String, bool)>)
    ensures
        taskbar_above(windows) <==> exists|i: int|
            0 <= i < windows.len() && i < 500 && (#[trigger] windows[i]).1 && (windows[i].0@
                == "Shell_TrayWnd"@ || windows[i].0@ == "Shell_SecondaryTrayWnd"@),
{
    if taskbar_above(windows) {
        let i = choose|i: int|
            0 <= i < windows.len() && i < MAX_WINDOWS_ABOVE && is_visible_taskbar(
                #[trigger] windows[i],
            );
        assert(windows[i].1);
    }
    if exists|i: int|
        0 <= i < windows.len() && i < 500 && (#[trigger] windows[i]).1 && (windows[i].0@
            == "Shell_TrayWnd"@ || windows[i].0@ == "Shell_SecondaryTrayWnd"@) {
        let i = choose|i: int|
            0 <= i < windows.len() && i < 500 && (#[trigger] windows[i]).1 && (windows[i].0@
                == "Shell_TrayWnd"@ || windows[i].0@ == "Shell_SecondaryTrayWnd"@);
        assert(is_visible_taskbar(windows[i]));
    }
}

/// Where it can be told of every window whether it covers the taskbar, it can be
/// told which windows the taskbar may have been raised over.
pub proof fn law_measurable_windows_can_be_looked_into(state: WmState)
    requires
        forall|i: int|
            0 <= i < state.containers@.len() ==> #[trigger] state.covering_fits(
                state.containers@[i],
            ),
    ensures
        suspects_fit(state),
{
    assert forall|i: int|
        0 <= i < state.containers@.len() && is_marked(
            state,
            #[trigger] state.containers@[i],
        ) implies state.covering_fits(state.containers@[i]) by {
        assert(state.covering_fits(state.containers@[i]));
    }
}

} // verus!
