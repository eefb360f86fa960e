//! Answering the system when it reports that a window has received focus.

use vstd::prelude::*;

use crate::config::UserConfig;
use crate::error::WmError;
use crate::fullscreen::WmEvent;
use crate::probe::{reading_or, Probe, Query, Reading};
use crate::reconcile_focus::{
    in_sight, is_in_sight, is_shell_focus_target, law_shell_is_the_desktop_and_the_taskbars,
    names_a_taskbar, shell_target, shown_focused_window, WindowReadings,
};
use crate::reposition::Outcome;
use crate::state::{
    Container, ContainerId, DisplayState, PendingSync, TargetOs, WindowId, WmState, Workspace,
};

verus! {

/// How long focus is overridden after a window was closed or minimized, in
/// milliseconds.
pub const FOCUS_OVERRIDE_MS: u128 = 100;

/// What is known when a window has received focus.
#[derive(Debug)]
pub struct FocusedWindowFacts {
    /// The window that has received focus.
    pub native: WindowReadings,
    /// The window that the window manager holds to have focus.
    pub target: WindowReadings,
}

impl FocusedWindowFacts {
    /// Nothing is known yet.
    pub fn new() -> (r: FocusedWindowFacts)
        ensures
            r == (FocusedWindowFacts {
                native: WindowReadings::unread(),
                target: WindowReadings::unread(),
            }),
    {
        FocusedWindowFacts { native: WindowReadings::new(), target: WindowReadings::new() }
    }
}

/// A window that the window manager is to give focus, because the user has.
#[derive(Debug)]
pub struct ManualFocus {
    pub window: ContainerId,
    pub workspace: ContainerId,
    /// The workspace to be displayed first, by its name.
    pub workspace_to_display: Option<String>,
}

/// The answer to a window having received focus.
#[derive(Debug)]
pub enum FocusResponse {
    /// Ask the system, and decide again.
    Ask(Query),
    /// There is nothing more to do.
    Done,
    /// Win focus back from the shell for a window.
    RestoreFromShell(WindowId),
    /// Give focus to a window that it was given to from outside.
    FocusManually(ManualFocus),
    Failed(WmError),
}

/// Whether focus is to go to where the window manager holds it to be.
///
/// After a window is closed or minimized, the system or the closed application
/// might switch focus to a different window. Any focus that comes shortly after
/// is therefore reassigned.
pub fn should_override_focus(elapsed_ms: Option<u128>, is_focus_synced: bool) -> (r: bool)
    ensures
        r == overrides_focus(elapsed_ms, is_focus_synced),
{
    let has_recent_unmanage = match elapsed_ms {
        Some(elapsed_ms) => elapsed_ms < FOCUS_OVERRIDE_MS,
        None => false,
    };
    has_recent_unmanage && !is_focus_synced
}

/// Whether focus is to go to where the window manager holds it to be.
pub open spec fn overrides_focus(elapsed_ms: Option<u128>, is_focus_synced: bool) -> bool {
    elapsed_ms matches Some(ms) && ms < FOCUS_OVERRIDE_MS && !is_focus_synced
}

/// Whether the focus that the system reports is the window manager's: on its
/// window, or on the desktop where it holds no window to have focus.
pub open spec fn focus_arrived(
    native: WindowId,
    focused: Container,
    readings: WindowReadings,
) -> Probe {
    match focused.window {
        Some(w) => Probe::Known(w.native == native),
        None => reading_or(readings.is_desktop, false, Query::IsDesktop(native)),
    }
}

/// Whether focus was left on the shell although the window that should have it
/// is in sight.
pub open spec fn shell_took_focus(
    native: WindowId,
    focused: Container,
    state: WmState,
    facts: FocusedWindowFacts,
) -> Probe {
    Probe::Known(!state.is_paused).and_also(shell_target(native, facts.native)).and_also(
        match focused.window {
            Some(w) => Probe::Known(w.display_state.visible()).and_also(
                in_sight(w.native, facts.target),
            ),
            None => Probe::Known(false),
        },
    )
}

/// Decides whether focus was left on the shell although the window that should
/// have it is in sight.
pub fn should_restore_shell_focus(
    native: WindowId,
    focused_container: &Container,
    state: &WmState,
    facts: &FocusedWindowFacts,
) -> (r: Probe)
    ensures
        r == shell_took_focus(native, *focused_container, *state, *facts),
{
    let in_sight = match &focused_container.window {
        Some(window) => Probe::Known(window.display_state.is_visible()).and(
            is_in_sight(window.native, &facts.target),
        ),
        None => Probe::Known(false),
    };
    Probe::Known(!state.is_paused).and(is_shell_focus_target(native, &facts.native)).and(in_sight)
}

/// What a window having received focus amounts to.
pub enum FocusKind {
    /// More has to be known.
    Unclear(Query),
    /// The window manager holds nothing to have focus.
    NothingFocused,
    /// Focus is to be sent back.
    Overridden,
    /// Focus was left on the shell, and is to be won back for a window.
    LeftOnShell(WindowId),
    /// The window is being hidden.
    BeingHidden,
    /// The window is none of the window manager's.
    Unmanaged,
    /// The window lies in no workspace.
    Homeless,
    /// Focus is where it should be, on a window in a workspace.
    InPlace(ContainerId),
    /// A window in a workspace was focused from outside.
    Manual(Container, Workspace),
}

/// What a window having received focus amounts to, once it is known whether
/// focus has arrived where it should be.
pub open spec fn settled_focus_kind(
    native: WindowId,
    focused: Container,
    state: WmState,
    config: UserConfig,
    elapsed_ms: Option<u128>,
    facts: FocusedWindowFacts,
    arrived: bool,
) -> FocusKind {
    let on_shell = if state.os == TargetOs::Windows && config.general.restore_focus_on_shell {
        shell_took_focus(native, focused, state, facts)
    } else {
        Probe::Known(false)
    };
    if overrides_focus(elapsed_ms, arrived) {
        FocusKind::Overridden
    } else {
        match on_shell {
            Probe::Ask(query) => FocusKind::Unclear(query),
            Probe::Known(true) => FocusKind::LeftOnShell(focused.window->0.native),
            Probe::Known(false) => match state.find_native(native) {
                None => FocusKind::Unmanaged,
                Some(found) => if found.window->0.display_state == DisplayState::Hiding {
                    FocusKind::BeingHidden
                } else {
                    match state.workspace_of(found) {
                        None => FocusKind::Homeless,
                        Some(workspace) => if focused.id == found.id {
                            FocusKind::InPlace(workspace.id)
                        } else {
                            FocusKind::Manual(found, workspace)
                        },
                    }
                },
            },
        }
    }
}

/// What a window having received focus amounts to.
pub open spec fn focus_kind(
    native: WindowId,
    state: WmState,
    config: UserConfig,
    elapsed_ms: Option<u128>,
    facts: FocusedWindowFacts,
) -> FocusKind {
    match state.find_focused() {
        None => FocusKind::NothingFocused,
        Some(focused) => match focus_arrived(native, focused, facts.native) {
            Probe::Ask(query) => FocusKind::Unclear(query),
            Probe::Known(arrived) => settled_focus_kind(
                native,
                focused,
                state,
                config,
                elapsed_ms,
                facts,
                arrived,
            ),
        },
    }
}

/// Whether `response` is the answer to a focus of the given kind.
pub open spec fn is_response(response: FocusResponse, kind: FocusKind) -> bool {
    match kind {
        FocusKind::Unclear(query) => response == FocusResponse::Ask(query),
        FocusKind::NothingFocused => response == FocusResponse::Failed(WmError::NoFocusedContainer),
        FocusKind::LeftOnShell(target) => response == FocusResponse::RestoreFromShell(target),
        FocusKind::Homeless => response == FocusResponse::Failed(
            WmError::FocusedWindowHasNoWorkspace,
        ),
        FocusKind::Overridden
        | FocusKind::BeingHidden
        | FocusKind::Unmanaged
        | FocusKind::InPlace(_) => response is Done,
        FocusKind::Manual(container, workspace) => {
            &&& response matches FocusResponse::FocusManually(manual)
            &&& manual.window == container.id
            &&& manual.workspace == workspace.id
            &&& match manual.workspace_to_display {
                Some(name) => {
                    &&& container.window->0.display_state == DisplayState::Hidden
                    &&& name@ == workspace.name@
                },
                None => container.window->0.display_state != DisplayState::Hidden,
            }
        },
    }
}

/// Whether the state has changed as a focus of the given kind asks for.
pub open spec fn takes_focus(
    before: WmState,
    after: WmState,
    kind: FocusKind,
    arrived: bool,
) -> bool {
    let effects_queued = PendingSync {
        needs_focused_effect_update: true,
        ..before.pending_sync
    };
    match kind {
        FocusKind::Unclear(_) | FocusKind::NothingFocused => after == before,
        FocusKind::Overridden => after == (WmState {
            is_focus_synced: arrived,
            pending_sync: PendingSync { needs_focus_update: true, ..before.pending_sync },
            ..before
        }),
        FocusKind::LeftOnShell(_) | FocusKind::BeingHidden => after == (WmState {
            is_focus_synced: arrived,
            ..before
        }),
        FocusKind::Unmanaged | FocusKind::Homeless | FocusKind::Manual(_, _) => after == (WmState {
            is_focus_synced: arrived,
            pending_sync: effects_queued,
            ..before
        }),
        FocusKind::InPlace(workspace) => {
            &&& after == (WmState {
                is_focus_synced: true,
                pending_sync: after.pending_sync,
                ..before
            })
            &&& PendingSync::queued_workspace(effects_queued, after.pending_sync, workspace)
        },
    }
}

/// Whether focus has arrived where the window manager holds it to be.
pub open spec fn has_arrived(native: WindowId, state: WmState, facts: FocusedWindowFacts) -> bool {
    state.find_focused() matches Some(focused) && focus_arrived(native, focused, facts.native)
        == Probe::Known(true)
}

/// Answers the system when it reports that the window `native` has received
/// focus.
///
/// `elapsed_ms` is how long ago a window was last closed or minimized, if one
/// was. As long as more has to be known, the state does not change.
pub fn handle_window_focused(
    native: WindowId,
    state: &mut WmState,
    config: &UserConfig,
    elapsed_ms: Option<u128>,
    facts: &FocusedWindowFacts,
) -> (r: FocusResponse)
    ensures
        is_response(r, focus_kind(native, *old(state), *config, elapsed_ms, *facts)),
        takes_focus(
            *old(state),
            *final(state),
            focus_kind(native, *old(state), *config, elapsed_ms, *facts),
            has_arrived(native, *old(state), *facts),
        ),
{
    let focused_container = match state.focused_container() {
        Some(container) => container,
        None => return FocusResponse::Failed(WmError::NoFocusedContainer),
    };
    let focused_id: ContainerId = focused_container.id;

    // If the system's focus is not where the window manager holds it to be,
    // focus is not synced.
    let arrived = match &focused_container.window {
        Some(window) => Probe::Known(window.native == native),
        None => Probe::read_or(&facts.native.is_desktop, false, Query::IsDesktop(native)),
    };
    let is_focus_synced: bool = match arrived {
        Probe::Ask(query) => return FocusResponse::Ask(query),
        Probe::Known(arrived) => arrived,
    };
    if should_override_focus(elapsed_ms, is_focus_synced) {
        state.is_focus_synced = is_focus_synced;
        state.pending_sync.queue_focus_change();
        return FocusResponse::Done;
    }
    // The system can leave keyboard focus on the desktop or the taskbar even
    // though the window that should have it is still visible. It is restored
    // after a short grace period, which avoids fighting windows that take focus
    // legitimately.
    if state.os == TargetOs::Windows && config.general.restore_focus_on_shell {
        match should_restore_shell_focus(native, focused_container, state, facts) {
            Probe::Ask(query) => return FocusResponse::Ask(query),
            Probe::Known(false) => {},
            Probe::Known(true) => {
                if let Some(window) = &focused_container.window {
                    let target: WindowId = window.native;
                    state.is_focus_synced = is_focus_synced;
                    return FocusResponse::RestoreFromShell(target);
                }
            },
        }
    }
    let found = match state.window_from_native(native) {
        Some(container) => container,
        None => {
            state.is_focus_synced = is_focus_synced;
            state.pending_sync.queue_focused_effect_update();
            return FocusResponse::Done;
        },
    };
    let found_id: ContainerId = found.id;
    let display_state = match &found.window {
        Some(window) => window.display_state,
        None => DisplayState::Shown,
    };
    // The window manager is hiding the window, so that it cannot keep focus.
    if display_state == DisplayState::Hiding {
        state.is_focus_synced = is_focus_synced;
        return FocusResponse::Done;
    }
    let (workspace_id, workspace_to_display) = match state.containing_workspace(found) {
        Some(workspace) => (
            workspace.id,
            // A window on a workspace that is not displayed was forced into
            // view, so its workspace is displayed.
            if display_state == DisplayState::Hidden {
                Some(workspace.name.clone())
            } else {
                None
            },
        ),
        None => {
            state.is_focus_synced = is_focus_synced;
            state.pending_sync.queue_focused_effect_update();
            return FocusResponse::Failed(WmError::FocusedWindowHasNoWorkspace);
        },
    };
    state.is_focus_synced = is_focus_synced;
    state.pending_sync.queue_focused_effect_update();
    if focused_id == found_id {
        state.is_focus_synced = true;
        state.pending_sync.queue_workspace_to_reorder(workspace_id);
        return FocusResponse::Done;
    }
    FocusResponse::FocusManually(
        ManualFocus { window: found_id, workspace: workspace_id, workspace_to_display },
    )
}

/// What came of the steps taken to give a window focus, so far.
#[derive(PartialEq, Eq, Structural, Clone, Copy, Debug)]
pub struct ManualFocusReplies {
    pub workspace_display: Outcome,
    pub tree_update: Outcome,
    pub window_rules: Outcome,
    pub settlement: Outcome,
    pub announcement: Outcome,
}

impl ManualFocusReplies {
    /// No step has been taken.
    pub fn new() -> (r: ManualFocusReplies)
        ensures
            r == (ManualFocusReplies {
                workspace_display: Outcome::Pending,
                tree_update: Outcome::Pending,
                window_rules: Outcome::Pending,
                settlement: Outcome::Pending,
                announcement: Outcome::Pending,
            }),
    {
        ManualFocusReplies {
            workspace_display: Outcome::Pending,
            tree_update: Outcome::Pending,
            window_rules: Outcome::Pending,
            settlement: Outcome::Pending,
            announcement: Outcome::Pending,
        }
    }
}

/// What to do next to give a window focus.
#[derive(Debug)]
pub enum ManualFocusAction<'a> {
    /// Display the workspace of that name.
    FocusWorkspace(&'a String),
    /// Make the window the one that was focused last, all the way up the tree.
    SetFocusedDescendant(ContainerId),
    /// Run the window rules for a window having received focus.
    RunWindowRules(ContainerId),
    /// Take note that focus is in place in a workspace.
    Settle(ContainerId),
    Announce(WmEvent),
    /// One of the steps has failed, so that the rest are not taken.
    Failed,
    Done,
}

/// What is done next to give a window focus, given what came of the steps so
/// far.
pub open spec fn manual_focus_action(
    manual: ManualFocus,
    replies: ManualFocusReplies,
) -> ManualFocusAction<'static> {
    if manual.workspace_to_display is Some && replies.workspace_display is Pending {
        ManualFocusAction::FocusWorkspace(&manual.workspace_to_display->0)
    } else if manual.workspace_to_display is Some && replies.workspace_display is Failed {
        ManualFocusAction::Failed
    } else if replies.tree_update is Pending {
        ManualFocusAction::SetFocusedDescendant(manual.window)
    } else if replies.window_rules is Pending {
        ManualFocusAction::RunWindowRules(manual.window)
    } else if replies.window_rules is Failed {
        ManualFocusAction::Failed
    } else if replies.settlement is Pending {
        ManualFocusAction::Settle(manual.workspace)
    } else if replies.announcement is Pending {
        ManualFocusAction::Announce(WmEvent::FocusChanged { focused_container: manual.window })
    } else if replies.announcement is Failed {
        ManualFocusAction::Failed
    } else {
        ManualFocusAction::Done
    }
}

/// Decides what to do next to give a window focus, given what came of the
/// steps so far.
///
/// Its workspace is displayed first where it is not. If that fails, or the
/// window rules do, nothing more is done.
pub fn next_manual_focus_action<'a>(manual: &'a ManualFocus, replies: &ManualFocusReplies) -> (r:
    ManualFocusAction<'a>)
    ensures
        r == manual_focus_action(*manual, *replies),
{
    if let Some(name) = &manual.workspace_to_display {
        match replies.workspace_display {
            Outcome::Pending => return ManualFocusAction::FocusWorkspace(name),
            Outcome::Failed => return ManualFocusAction::Failed,
            Outcome::Answered(_) => {},
        }
    }
    if matches!(replies.tree_update, Outcome::Pending) {
        return ManualFocusAction::SetFocusedDescendant(manual.window);
    }
    match replies.window_rules {
        Outcome::Pending => return ManualFocusAction::RunWindowRules(manual.window),
        Outcome::Failed => return ManualFocusAction::Failed,
        Outcome::Answered(_) => {},
    }
    if matches!(replies.settlement, Outcome::Pending) {
        return ManualFocusAction::Settle(manual.workspace);
    }
    match replies.announcement {
        Outcome::Pending => ManualFocusAction::Announce(
            WmEvent::FocusChanged { focused_container: manual.window },
        ),
        Outcome::Failed => ManualFocusAction::Failed,
        Outcome::Answered(_) => ManualFocusAction::Done,
    }
}

/// Takes note that focus is in place, and asks for the windows of its
/// workspace to be restacked.
pub fn settle_manual_focus(state: &mut WmState, workspace: ContainerId)
    ensures
        *final(state) == (WmState {
            is_focus_synced: true,
            pending_sync: final(state).pending_sync,
            ..*old(state)
        }),
        PendingSync::queued_workspace(
            old(state).pending_sync,
            final(state).pending_sync,
            workspace,
        ),
{
    state.is_focus_synced = true;
    state.pending_sync.queue_workspace_to_reorder(workspace);
}

/// Every question that is asked is one whose answer is not known: of the window
/// that has received focus, what it is, and of the window that should have it,
/// whether it is in sight.
pub proof fn law_focus_events_ask_only_open_questions(
    native: WindowId,
    state: WmState,
    config: UserConfig,
    elapsed_ms: Option<u128>,
    facts: FocusedWindowFacts,
)
    ensures
        focus_kind(native, state, config, elapsed_ms, facts) matches FocusKind::Unclear(query)
            ==> match query {
            Query::IsDesktop(window) => window == native && facts.native.is_desktop is Unread,
            Query::ClassName(window) => window == native && facts.native.class_name is Unread,
            Query::IsVisible(window) => {
                &&& shown_focused_window(state) == Some(window)
                &&& facts.target.is_visible is Unread
            },
            Query::IsMinimized(window) => {
                &&& shown_focused_window(state) == Some(window)
                &&& facts.target.is_minimized is Unread
            },
            _ => false,
        },
{
}

/// Focus that is where it should be is never sent back.
pub proof fn law_synced_focus_is_not_overridden(
    native: WindowId,
    state: WmState,
    config: UserConfig,
    elapsed_ms: Option<u128>,
    facts: FocusedWindowFacts,
)
    requires
        has_arrived(native, state, facts),
    ensures
        !(focus_kind(native, state, config, elapsed_ms, facts) is Overridden),
{
}

/// Shortly after a window was closed or minimized, focus on any window but the
/// one that should have it is sent back, and no other window is given focus.
pub proof fn law_focus_is_reassigned_after_a_window_leaves(
    native: WindowId,
    state: WmState,
    config: UserConfig,
    elapsed_ms: u128,
    facts: FocusedWindowFacts,
)
    requires
        elapsed_ms < FOCUS_OVERRIDE_MS,
        state.find_focused() matches Some(focused) && focused.window matches Some(window)
            && window.native != native,
    ensures
        focus_kind(native, state, config, Some(elapsed_ms), facts) is Overridden,
{
}

/// A window that the window manager is hiding does not receive its focus.
pub proof fn law_window_being_hidden_is_not_focused(
    native: WindowId,
    state: WmState,
    config: UserConfig,
    elapsed_ms: Option<u128>,
    facts: FocusedWindowFacts,
)
    requires
        state.find_native(native) matches Some(found) && found.window matches Some(window)
            && window.display_state == DisplayState::Hiding,
    ensures
        ({
            let kind = focus_kind(native, state, config, elapsed_ms, facts);
            !(kind is InPlace) && !(kind is Manual)
        }),
{
}

/// Focus is announced last, once the window has it in the tree and its rules
/// have run.
pub proof fn law_manual_focus_is_announced_last(manual: ManualFocus, replies: ManualFocusReplies)
    requires
        manual_focus_action(manual, replies) is Announce,
    ensures
        !(replies.tree_update is Pending),
        replies.window_rules is Answered,
        !(replies.settlement is Pending),
        manual.workspace_to_display is Some ==> replies.workspace_display is Answered,
{
}

/// Whether nothing is left to ask for a focus event.
pub open spec fn event_known(facts: FocusedWindowFacts) -> bool {
    &&& !(facts.native.is_desktop is Unread)
    &&& !(facts.native.class_name is Unread)
    &&& !(facts.target.is_visible is Unread)
    &&& !(facts.target.is_minimized is Unread)
}

/// Whether a response and a change of state answer a focus event.
pub open spec fn answers_focus(
    native: WindowId,
    before: WmState,
    config: UserConfig,
    elapsed_ms: Option<u128>,
    facts: FocusedWindowFacts,
    response: FocusResponse,
    after: WmState,
) -> bool {
    let kind = focus_kind(native, before, config, elapsed_ms, facts);
    is_response(response, kind) && takes_focus(
        before,
        after,
        kind,
        has_arrived(native, before, facts),
    )
}

/// Whether focus is on the window that should have it or, where that is no
/// window, on the desktop.
pub open spec fn is_in_place(
    native: WindowId,
    focused: Container,
    facts: FocusedWindowFacts,
) -> bool {
    match focused.window {
        Some(w) => w.native == native,
        None => facts.native.is_desktop == Reading::Read(true),
    }
}

/// Whether focus went astray less than a tenth of a second after a window was
/// closed or minimized.
pub open spec fn went_astray(
    native: WindowId,
    focused: Container,
    elapsed_ms: Option<u128>,
    facts: FocusedWindowFacts,
) -> bool {
    !is_in_place(native, focused, facts) && (elapsed_ms matches Some(ms) && ms < 100)
}

/// Whether focus is to be won back from the desktop, a taskbar or nowhere for a
/// window that is shown or about to be, can be seen and is not minimized.
pub open spec fn is_to_be_won_back(
    native: WindowId,
    focused: Container,
    state: WmState,
    config: UserConfig,
    facts: FocusedWindowFacts,
) -> bool {
    &&& state.os == TargetOs::Windows
    &&& config.general.restore_focus_on_shell
    &&& !state.is_paused
    &&& native == 0 || facts.native.is_desktop == Reading::Read(true) || names_a_taskbar(
        facts.native.class_name,
    )
    &&& focused.window matches Some(w) && (w.display_state == DisplayState::Shown
        || w.display_state == DisplayState::Showing)
    &&& facts.target.is_visible == Reading::Read(true)
    &&& facts.target.is_minimized == Reading::Read(false)
}

/// Without anything that has focus, a focus event is an error and changes
/// nothing.
pub proof fn law_focus_events_need_something_focused(
    native: WindowId,
    before: WmState,
    config: UserConfig,
    elapsed_ms: Option<u128>,
    facts: FocusedWindowFacts,
    response: FocusResponse,
    after: WmState,
)
    requires
        answers_focus(native, before, config, elapsed_ms, facts, response, after),
        before.find_focused() is None,
    ensures
        response == FocusResponse::Failed(WmError::NoFocusedContainer),
        after == before,
{
}

/// Focus that went astray is sent back: that is queued, and nothing else
/// happens, whichever window has it and whatever holds of the shell.
pub proof fn law_stray_focus_is_sent_back(
    native: WindowId,
    before: WmState,
    config: UserConfig,
    elapsed_ms: Option<u128>,
    facts: FocusedWindowFacts,
    response: FocusResponse,
    after: WmState,
    focused: Container,
)
    requires
        answers_focus(native, before, config, elapsed_ms, facts, response, after),
        event_known(facts),
        before.find_focused() == Some(focused),
        went_astray(native, focused, elapsed_ms, facts),
    ensures
        response is Done,
        after == (WmState {
            is_focus_synced: false,
            pending_sync: PendingSync { needs_focus_update: true, ..before.pending_sync },
            ..before
        }),
{
}

/// Focus that was left on the shell is won back for the window that should have
/// it, unless it is sent back anyway. Nothing is queued.
pub proof fn law_focus_taken_by_the_shell_is_won_back(
    native: WindowId,
    before: WmState,
    config: UserConfig,
    elapsed_ms: Option<u128>,
    facts: FocusedWindowFacts,
    response: FocusResponse,
    after: WmState,
    focused: Container,
)
    requires
        answers_focus(native, before, config, elapsed_ms, facts, response, after),
        event_known(facts),
        before.find_focused() == Some(focused),
        !went_astray(native, focused, elapsed_ms, facts),
        is_to_be_won_back(native, focused, before, config, facts),
    ensures
        response == FocusResponse::RestoreFromShell(focused.window->0.native),
        after == (WmState { is_focus_synced: is_in_place(native, focused, facts), ..before }),
{
    law_shell_is_the_desktop_and_the_taskbars(native, facts.native);
}

/// Focus that is neither sent back nor won back is accepted:
///  * on a window that is none of the window manager's, effects are queued;
///  * on a window that is being hidden, nothing is;
///  * on a window in no workspace, effects are queued, and it is an error;
///  * on the window that should have it, effects are queued and its workspace is
///    restacked;
///  * on any other window, effects are queued and the window is to be focused,
///    its workspace being displayed first just if the window is hidden.
pub proof fn law_other_focus_is_accepted(
    native: WindowId,
    before: WmState,
    config: UserConfig,
    elapsed_ms: Option<u128>,
    facts: FocusedWindowFacts,
    response: FocusResponse,
    after: WmState,
    focused: Container,
)
    requires
        answers_focus(native, before, config, elapsed_ms, facts, response, after),
        event_known(facts),
        before.find_focused() == Some(focused),
        !went_astray(native, focused, elapsed_ms, facts),
        !is_to_be_won_back(native, focused, before, config, facts),
    ensures
        ({
            let in_place = is_in_place(native, focused, facts);
            let accepted = WmState {
                is_focus_synced: in_place,
                pending_sync: PendingSync {
                    needs_focused_effect_update: true,
                    ..before.pending_sync
                },
                ..before
            };
            match before.find_native(native) {
                None => response is Done && after == accepted,
                Some(found) => found.window matches Some(w) ==> {
                    if w.display_state == DisplayState::Hiding {
                        response is Done && after == (WmState { is_focus_synced: in_place, ..before
                        })
                    } else {
                        match before.workspace_of(found) {
                            None => {
                                &&& response == FocusResponse::Failed(
                                    WmError::FocusedWindowHasNoWorkspace,
                                )
                                &&& after == accepted
                            },
                            Some(workspace) => if found.id == focused.id {
                                let restacked = after.pending_sync.workspaces_to_reorder;
                                &&& response is Done
                                &&& restacked@ == before.pending_sync.workspaces_to_reorder@.push(
                                    workspace.id,
                                )
                                &&& after == (WmState {
                                    is_focus_synced: true,
                                    pending_sync: PendingSync {
                                        workspaces_to_reorder: restacked,
                                        ..accepted.pending_sync
                                    },
                                    ..before
                                })
                            } else {
                                &&& response matches FocusResponse::FocusManually(manual)
                                &&& manual.window == found.id
                                &&& manual.workspace == workspace.id
                                &&& w.display_state == DisplayState::Hidden ==> {
                                    &&& manual.workspace_to_display matches Some(name)
                                    &&& name@ == workspace.name@
                                }
                                &&& w.display_state != DisplayState::Hidden
                                    ==> manual.workspace_to_display is None
                                &&& after == accepted
                            },
                        }
                    }
                },
            }
        }),
{
    law_shell_is_the_desktop_and_the_taskbars(native, facts.native);
}

/// As long as something is left to ask, nothing changes.
pub proof fn law_asking_changes_nothing(
    native: WindowId,
    before: WmState,
    config: UserConfig,
    elapsed_ms: Option<u128>,
    facts: FocusedWindowFacts,
    response: FocusResponse,
    after: WmState,
)
    requires
        answers_focus(native, before, config, elapsed_ms, facts, response, after),
        response is Ask,
    ensures
        after == before,
        !event_known(facts),
{
}

/// The steps that give a window focus, from some replies on and up to a limit,
/// where each succeeds.
pub open spec fn steps_taken(
    manual: ManualFocus,
    replies: ManualFocusReplies,
    limit: nat,
) -> Seq<ManualFocusAction<'static>>
    decreases limit,
{
    let action = manual_focus_action(manual, replies);
    let ok = Outcome::Answered(true);
    if limit == 0 || action is Done || action is Failed {
        Seq::empty()
    } else {
        seq![action] + steps_taken(
            manual,
            match action {
                ManualFocusAction::FocusWorkspace(_) => ManualFocusReplies {
                    workspace_display: ok,
                    ..replies
                },
                ManualFocusAction::SetFocusedDescendant(_) => ManualFocusReplies {
                    tree_update: ok,
                    ..replies
                },
                ManualFocusAction::RunWindowRules(_) => ManualFocusReplies {
                    window_rules: ok,
                    ..replies
                },
                ManualFocusAction::Settle(_) => ManualFocusReplies { settlement: ok, ..replies },
                _ => ManualFocusReplies { announcement: ok, ..replies },
            },
            (limit - 1) as nat,
        )
    }
}

/// To give a window focus, its workspace is displayed where that is to be, the
/// window is made the one focused last, its rules are run, focus is noted to be
/// in place, and that is announced: these steps, in this order, and no other.
pub proof fn law_window_is_focused_in_these_steps(manual: ManualFocus)
    ensures
        ({
            let none = ManualFocusReplies {
                workspace_display: Outcome::Pending,
                tree_update: Outcome::Pending,
                window_rules: Outcome::Pending,
                settlement: Outcome::Pending,
                announcement: Outcome::Pending,
            };
            let rest = seq![
                ManualFocusAction::SetFocusedDescendant(manual.window),
                ManualFocusAction::RunWindowRules(manual.window),
                ManualFocusAction::Settle(manual.workspace),
                ManualFocusAction::Announce(
                    WmEvent::FocusChanged { focused_container: manual.window },
                ),
            ];
            steps_taken(manual, none, 8) == match manual.workspace_to_display {
                Some(name) => seq![ManualFocusAction::FocusWorkspace(&name)] + rest,
                None => rest,
            }
        }),
{
    reveal_with_fuel(steps_taken, 7);
}

/// Where a workspace cannot be displayed, or rules fail, or listeners cannot be
/// told, no step is taken after that.
pub proof fn law_failed_step_is_the_last(manual: ManualFocus, replies: ManualFocusReplies)
    ensures
        manual_focus_action(manual, replies) matches ManualFocusAction::FocusWorkspace(_)
            ==> manual_focus_action(
            manual,
            ManualFocusReplies { workspace_display: Outcome::Failed, ..replies },
        ) is Failed,
        manual_focus_action(manual, replies) matches ManualFocusAction::RunWindowRules(_)
            ==> manual_focus_action(
            manual,
            ManualFocusReplies { window_rules: Outcome::Failed, ..replies },
        ) is Failed,
        manual_focus_action(manual, replies) matches ManualFocusAction::Announce(_)
            ==> manual_focus_action(
            manual,
            ManualFocusReplies { announcement: Outcome::Failed, ..replies },
        ) is Failed,
{
}

/// What a focus event is taken for before everything is known stands, whatever
/// else becomes known.
pub proof fn law_early_answers_stand(
    native: WindowId,
    state: WmState,
    config: UserConfig,
    elapsed_ms: Option<u128>,
    facts: FocusedWindowFacts,
    more: FocusedWindowFacts,
)
    requires
        facts.native.is_filled(more.native),
        facts.target.is_filled(more.target),
        !(focus_kind(native, state, config, elapsed_ms, facts) is Unclear),
    ensures
        focus_kind(native, state, config, elapsed_ms, more) == focus_kind(
            native,
            state,
            config,
            elapsed_ms,
            facts,
        ),
        has_arrived(native, state, more) == has_arrived(native, state, facts),
{
}

} // verus!
