//! Carrying over to the system what has changed in the window manager's state.

use vstd::prelude::*;

use crate::config::{CursorJumpTrigger, UserConfig};
use crate::effects::{effects_update, focused_window, update_effects, EffectCall};
use crate::error::WmError;
use crate::fullscreen::WmEvent;
use crate::probe::Reading;
use crate::rect::Rect;
use crate::redraw::{
    are_planned_redraws_in_range, displayed, planned_redraws_fit, redraw_containers, redraw_plan,
    RedrawPlan,
};
use crate::reposition::Outcome;
use crate::state::{Container, ContainerId, TargetOs, WindowId, WmState};

verus! {

/// What came of the calls made to carry focus over, so far.
#[derive(PartialEq, Eq, Clone, Copy, Debug)]
pub struct FocusReplies {
    /// The window that had the system's focus before it was moved.
    pub foreground: Reading<WindowId>,
    pub focus: Outcome,
    pub convergence: Outcome,
    pub announcement: Outcome,
}

impl FocusReplies {
    /// No call has been made.
    pub fn new() -> (r: FocusReplies)
        ensures
            r == (FocusReplies {
                foreground: Reading::Unread,
                focus: Outcome::Pending,
                convergence: Outcome::Pending,
                announcement: Outcome::Pending,
            }),
    {
        FocusReplies {
            foreground: Reading::Unread,
            focus: Outcome::Pending,
            convergence: Outcome::Pending,
            announcement: Outcome::Pending,
        }
    }
}

/// What to do next to carry focus over.
#[derive(PartialEq, Eq, Structural, Clone, Copy, Debug)]
pub enum FocusAction {
    /// Ask which window has the system's focus.
    AskForeground,
    FocusWindow(WindowId),
    /// Focus the desktop.
    ResetFocus,
    /// Try again for a while, as long as focus stays with `previous`.
    ScheduleConvergence { target: WindowId, previous: WindowId },
    Announce(WmEvent),
    /// Listeners could not be told.
    Failed,
    Done,
}

/// What is done next to carry focus over to a container, given what came of
/// the calls so far.
pub open spec fn focus_action(
    focused: Container,
    os: TargetOs,
    config: UserConfig,
    replies: FocusReplies,
) -> FocusAction {
    let on_windows = os == TargetOs::Windows;
    let converges = on_windows && config.general.restore_focus_on_shell && focused.window is Some
        && replies.foreground is Read;
    if on_windows && replies.foreground is Unread {
        FocusAction::AskForeground
    } else if replies.focus is Pending {
        match focused.window {
            Some(w) => FocusAction::FocusWindow(w.native),
            None => FocusAction::ResetFocus,
        }
    } else if converges && replies.convergence is Pending {
        FocusAction::ScheduleConvergence {
            target: focused.window->0.native,
            previous: replies.foreground->Read_0,
        }
    } else {
        match replies.announcement {
            Outcome::Pending => FocusAction::Announce(
                WmEvent::FocusChanged { focused_container: focused.id },
            ),
            Outcome::Failed => FocusAction::Failed,
            Outcome::Answered(_) => FocusAction::Done,
        }
    }
}

/// Decides what to do next to carry focus over to a container, given what came
/// of the calls so far.
///
/// A window is focused itself; for any other container focus goes to the
/// desktop. That this fails is no reason to stop.
pub fn sync_focus(
    focused_container: &Container,
    os: TargetOs,
    config: &UserConfig,
    replies: &FocusReplies,
) -> (r: FocusAction)
    ensures
        r == focus_action(*focused_container, os, *config, *replies),
{
    if os == TargetOs::Windows && matches!(replies.foreground, Reading::Unread) {
        return FocusAction::AskForeground;
    }
    if matches!(replies.focus, Outcome::Pending) {
        return match &focused_container.window {
            Some(window) => FocusAction::FocusWindow(window.native),
            None => FocusAction::ResetFocus,
        };
    }
    // The system can deny focus transiently. The result is verified later, and
    // focus retried while it remains on the exact window that preceded it.
    if os == TargetOs::Windows && config.general.restore_focus_on_shell {
        if let (Some(window), Reading::Read(previous)) = (
            &focused_container.window,
            replies.foreground,
        ) {
            if matches!(replies.convergence, Outcome::Pending) {
                return FocusAction::ScheduleConvergence { target: window.native, previous };
            }
        }
    }
    match replies.announcement {
        Outcome::Pending => FocusAction::Announce(
            WmEvent::FocusChanged { focused_container: focused_container.id },
        ),
        Outcome::Failed => FocusAction::Failed,
        Outcome::Answered(_) => FocusAction::Done,
    }
}

/// Where the cursor goes.
#[derive(PartialEq, Eq, Structural, Clone, Copy, Debug)]
pub enum CursorJump {
    /// Ask which monitor the cursor is on.
    LocateCursor,
    /// Move the cursor to the center of a rect.
    ToCenterOf(Rect),
    Stay,
}

/// The jump to the center of a rect or, where that could not be worked out,
/// the reason.
pub open spec fn jump_to(rect: Result<Rect, String>) -> Result<CursorJump, WmError> {
    match rect {
        Ok(rect) => Ok(CursorJump::ToCenterOf(rect)),
        Err(reason) => Err(WmError::RectUnavailable(reason)),
    }
}

/// Where the cursor goes, or why that cannot be told.
pub open spec fn cursor_jump(
    focused: Container,
    state: WmState,
    config: UserConfig,
    cursor_monitor: Reading<ContainerId>,
) -> Result<CursorJump, WmError> {
    match config.general.cursor_jump.trigger {
        CursorJumpTrigger::WindowFocus => jump_to(focused.rect),
        CursorJumpTrigger::MonitorFocus => match state.monitor_of(focused) {
            None => Err(WmError::NoMonitor),
            Some(target) => match cursor_monitor {
                Reading::Unread => Ok(CursorJump::LocateCursor),
                Reading::Failed => Ok(CursorJump::Stay),
                Reading::Read(monitor) => if monitor == target.id {
                    Ok(CursorJump::Stay)
                } else {
                    jump_to(target.rect)
                },
            },
        },
    }
}

/// Decides where the cursor goes.
///
/// `cursor_monitor` is the monitor that the cursor is on; it counts as failed
/// where the cursor cannot be located or is on no monitor.
pub fn jump_cursor(
    focused_container: &Container,
    state: &WmState,
    config: &UserConfig,
    cursor_monitor: Reading<ContainerId>,
) -> (r: Result<CursorJump, WmError>)
    ensures
        r == cursor_jump(*focused_container, *state, *config, cursor_monitor),
{
    let rect = match config.general.cursor_jump.trigger {
        CursorJumpTrigger::WindowFocus => &focused_container.rect,
        CursorJumpTrigger::MonitorFocus => {
            let target_monitor = match state.containing_monitor(focused_container) {
                Some(monitor) => monitor,
                None => return Err(WmError::NoMonitor),
            };
            // Jump to the target monitor if the cursor is not already on it.
            match cursor_monitor {
                Reading::Unread => return Ok(CursorJump::LocateCursor),
                Reading::Failed => return Ok(CursorJump::Stay),
                Reading::Read(monitor) => {
                    if monitor == target_monitor.id {
                        return Ok(CursorJump::Stay);
                    }
                },
            }
            &target_monitor.rect
        },
    };
    match rect {
        Ok(rect) => Ok(CursorJump::ToCenterOf(*rect)),
        Err(reason) => Err(WmError::RectUnavailable(reason.clone())),
    }
}

/// How far a sync has come.
#[derive(PartialEq, Eq, Structural, Clone, Copy, Debug)]
pub enum SyncStage {
    Begin,
    Focus,
    Redraw,
    Cursor,
    Effects,
    Finished,
}

/// The next job of a sync.
#[derive(Debug)]
pub enum SyncJob {
    /// Carry focus over.
    SyncFocus,
    /// Update windows. The failure of the plan is that of the job.
    Redraw(RedrawPlan),
    /// Let the cursor jump.
    JumpCursor,
    /// Give windows their effects. That any of this fails is no reason to
    /// stop.
    ApplyEffects(Vec<EffectCall>),
    /// Nothing is left to do.
    Finish(Result<(), WmError>),
}

impl SyncStage {
    /// Where the stage comes in the course of a sync.
    pub open spec fn rank(self) -> int {
        match self {
            SyncStage::Begin => 0,
            SyncStage::Focus => 1,
            SyncStage::Redraw => 2,
            SyncStage::Cursor => 3,
            SyncStage::Effects => 4,
            SyncStage::Finished => 5,
        }
    }
}

/// Whether a stage has anything to do.
pub open spec fn has_work(state: WmState, config: UserConfig, stage: SyncStage) -> bool {
    let pending = state.pending_sync;
    match stage {
        SyncStage::Begin => false,
        SyncStage::Focus => pending.needs_focus_update,
        SyncStage::Redraw => pending.containers_to_redraw@.len() > 0
            || pending.workspaces_to_reorder@.len() > 0,
        SyncStage::Cursor => pending.needs_cursor_jump && config.general.cursor_jump.enabled,
        SyncStage::Effects => pending.needs_focused_effect_update
            || pending.needs_all_effects_update,
        SyncStage::Finished => true,
    }
}

/// Whether `next` is the first stage after `done` that has anything to do.
pub open spec fn comes_next(
    state: WmState,
    config: UserConfig,
    done: SyncStage,
    next: SyncStage,
) -> bool {
    &&& has_work(state, config, next)
    &&& next.rank() > done.rank() || next is Finished
    &&& forall|between: SyncStage|
        done.rank() < #[trigger] between.rank() < next.rank() ==> !has_work(state, config, between)
}

/// The first stage after `done` that has anything to do.
fn next_stage(state: &WmState, config: &UserConfig, done: SyncStage) -> (next: SyncStage)
    ensures
        comes_next(*state, *config, done, next),
{
    let pending = &state.pending_sync;
    let focus_done = !matches!(done, SyncStage::Begin);
    let redraw_done = focus_done && !matches!(done, SyncStage::Focus);
    let cursor_done = redraw_done && !matches!(done, SyncStage::Redraw);
    let effects_done = cursor_done && !matches!(done, SyncStage::Cursor);
    if !focus_done && pending.needs_focus_update {
        return SyncStage::Focus;
    }
    if !redraw_done && (pending.containers_to_redraw.len() > 0
        || pending.workspaces_to_reorder.len() > 0) {
        return SyncStage::Redraw;
    }
    if !cursor_done && pending.needs_cursor_jump && config.general.cursor_jump.enabled {
        return SyncStage::Cursor;
    }
    if !effects_done && (pending.needs_focused_effect_update || pending.needs_all_effects_update) {
        return SyncStage::Effects;
    }
    SyncStage::Finished
}

/// Whether the next job can be worked out without leaving the coordinate range:
/// where that is to update windows, they can be placed.
pub open spec fn sync_fits(
    state: WmState,
    config: UserConfig,
    done: SyncStage,
    report: Result<(), WmError>,
) -> bool {
    report is Ok && comes_next(state, config, done, SyncStage::Redraw) ==> planned_redraws_fit(
        state,
        config,
    )
}

/// Whether the next job can be worked out without leaving the coordinate range.
pub fn is_sync_in_range(
    state: &WmState,
    config: &UserConfig,
    done: SyncStage,
    report: &Result<(), WmError>,
) -> (r: bool)
    ensures
        r == sync_fits(*state, *config, done, *report),
{
    proof {
        lemma_one_stage_comes_next(*state, *config, done);
    }
    report.is_err() || !matches!(next_stage(state, config, done), SyncStage::Redraw)
        || are_planned_redraws_in_range(state, config)
}

/// Gives the next job of carrying over to the system what has changed.
///
/// `done` is the stage whose job was done last, and `report` what came of it.
/// A sync begins with `SyncStage::Begin` and ends with `SyncJob::Finish`. What
/// was to be carried over is kept where a job failed, and is otherwise
/// cleared at the end.
pub fn platform_sync(
    state: &mut WmState,
    config: &UserConfig,
    done: SyncStage,
    report: Result<(), WmError>,
) -> (r: (SyncStage, SyncJob))
    requires
        sync_fits(*old(state), *config, done, report),
    ensures
        old(state).find_focused() is None ==> {
            &&& r.0 is Finished
            &&& r.1 == SyncJob::Finish(Err(WmError::NoFocusedContainer))
            &&& *final(state) == *old(state)
        },
        old(state).find_focused() is Some && report is Err ==> {
            &&& r.0 is Finished
            &&& r.1 == SyncJob::Finish(Err(report->Err_0))
            &&& *final(state) == *old(state)
        },
        old(state).find_focused() is Some && report is Ok ==> {
            &&& comes_next(*old(state), *config, done, SyncStage::Focus) ==> {
                &&& r.0 is Focus
                &&& r.1 is SyncFocus
                &&& *final(state) == *old(state)
            }
            &&& comes_next(*old(state), *config, done, SyncStage::Redraw) ==> {
                let workspace = old(state).workspace_of(old(state).find_focused()->0);
                &&& *final(state) == (WmState {
                    containers: final(state).containers,
                    ..*old(state)
                })
                &&& workspace is None ==> {
                    &&& r.0 is Finished
                    &&& r.1 == SyncJob::Finish(Err(WmError::NoWorkspace))
                    &&& *final(state) == *old(state)
                }
                &&& workspace matches Some(workspace) ==> {
                    &&& r.0 is Redraw
                    &&& r.1 matches SyncJob::Redraw(plan)
                    &&& (plan.updates@, plan.failure) == redraw_plan(
                        *old(state),
                        *config,
                        workspace.id,
                    )
                    &&& final(state).containers@ == displayed(
                        old(state).containers@,
                        plan.updates@,
                    )
                }
            }
            &&& comes_next(*old(state), *config, done, SyncStage::Cursor) ==> {
                &&& r.0 is Cursor
                &&& r.1 is JumpCursor
                &&& *final(state) == *old(state)
            }
            &&& comes_next(*old(state), *config, done, SyncStage::Effects) ==> {
                &&& r.0 is Effects
                &&& r.1 matches SyncJob::ApplyEffects(calls)
                &&& calls@ == effects_update(
                    *old(state),
                    old(state).find_focused()->0.id,
                    *config,
                )
                &&& *final(state) == (WmState {
                    prev_effects_window: focused_window(*old(state)),
                    ..*old(state)
                })
            }
            &&& comes_next(*old(state), *config, done, SyncStage::Finished) ==> {
                &&& r.0 is Finished
                &&& r.1 == SyncJob::Finish(Ok(()))
                &&& final(state).pending_sync.is_clear()
                &&& *final(state) == (WmState {
                    pending_sync: final(state).pending_sync,
                    ..*old(state)
                })
            }
        },
{
    if state.focused_container().is_none() {
        return (SyncStage::Finished, SyncJob::Finish(Err(WmError::NoFocusedContainer)));
    }
    if let Err(e) = report {
        return (SyncStage::Finished, SyncJob::Finish(Err(e)));
    }
    let next = next_stage(state, config, done);
    proof {
        lemma_one_stage_comes_next(*state, *config, done);
    }
    match next {
        SyncStage::Focus => (next, SyncJob::SyncFocus),
        SyncStage::Redraw => match redraw_containers(state, config) {
            Ok(plan) => (next, SyncJob::Redraw(plan)),
            Err(e) => (SyncStage::Finished, SyncJob::Finish(Err(e))),
        },
        SyncStage::Cursor => (next, SyncJob::JumpCursor),
        SyncStage::Effects => {
            let calls = update_effects(state, config);
            (next, SyncJob::ApplyEffects(calls))
        },
        _ => {
            state.pending_sync.clear();
            (SyncStage::Finished, SyncJob::Finish(Ok(())))
        },
    }
}

/// No two stages come next.
proof fn lemma_one_stage_comes_next(state: WmState, config: UserConfig, done: SyncStage)
    ensures
        forall|a: SyncStage, b: SyncStage|
            comes_next(state, config, done, a) && comes_next(state, config, done, b) ==> a == b,
{
    assert forall|a: SyncStage, b: SyncStage|
        comes_next(state, config, done, a) && comes_next(state, config, done, b) implies a == b by {
        if a.rank() < b.rank() {
            assert(!(done.rank() < a.rank()) || !has_work(state, config, a));
        } else if b.rank() < a.rank() {
            assert(!(done.rank() < b.rank()) || !has_work(state, config, b));
        }
    }
}

/// Every stage of a sync comes later than the one before it, so that a sync
/// ends, and some stage always comes next.
pub proof fn law_sync_moves_forward(state: WmState, config: UserConfig, done: SyncStage)
    requires
        !(done is Finished),
    ensures
        exists|next: SyncStage| #[trigger] comes_next(state, config, done, next),
        forall|next: SyncStage| #[trigger]
            comes_next(state, config, done, next) ==> next.rank() > done.rank(),
{
    if done.rank() < 1 && has_work(state, config, SyncStage::Focus) {
        assert(comes_next(state, config, done, SyncStage::Focus));
    } else if done.rank() < 2 && has_work(state, config, SyncStage::Redraw) {
        assert(comes_next(state, config, done, SyncStage::Redraw));
    } else if done.rank() < 3 && has_work(state, config, SyncStage::Cursor) {
        assert(comes_next(state, config, done, SyncStage::Cursor));
    } else if done.rank() < 4 && has_work(state, config, SyncStage::Effects) {
        assert(comes_next(state, config, done, SyncStage::Effects));
    } else {
        assert(comes_next(state, config, done, SyncStage::Finished));
    }
}

/// Where nothing has changed, a sync has nothing to do.
pub proof fn law_nothing_pending_means_nothing_to_do(state: WmState, config: UserConfig)
    requires
        state.pending_sync.is_clear(),
    ensures
        comes_next(state, config, SyncStage::Begin, SyncStage::Finished),
{
}

/// Once focus has been asked for and given, listeners are told last: whatever
/// the system answers, nothing is announced before focus was moved, and where
/// it could not be moved it is announced all the same.
pub proof fn law_focus_is_announced_after_it_is_moved(
    focused: Container,
    os: TargetOs,
    config: UserConfig,
    replies: FocusReplies,
)
    ensures
        focus_action(focused, os, config, replies) is Announce ==> !(replies.focus is Pending),
        focus_action(focused, os, config, replies) is Done ==> replies.announcement is Answered,
        focus_action(focused, os, config, replies) == focus_action(
            focused,
            os,
            config,
            FocusReplies {
                focus: if replies.focus is Pending {
                    Outcome::Pending
                } else {
                    Outcome::Failed
                },
                ..replies
            },
        ),
{
}

/// The stages of a sync come in one order, and each that has something pending is
/// reached: focus where a focus change is, windows where any is to be redrawn or
/// a workspace restacked, the cursor where it is to jump and may, and effects
/// where any are to be updated. A stage is left out just if nothing is pending
/// for it, and the end comes after all of them.
pub proof fn law_stages_follow_what_is_pending(
    state: WmState,
    config: UserConfig,
    done: SyncStage,
)
    requires
        !(done is Finished),
    ensures
        ({
            let pending = state.pending_sync;
            let focus = done is Begin && pending.needs_focus_update;
            let redraw = (done is Begin || done is Focus) && (pending.containers_to_redraw@.len()
                > 0 || pending.workspaces_to_reorder@.len() > 0);
            let cursor = (done is Begin || done is Focus || done is Redraw)
                && pending.needs_cursor_jump && config.general.cursor_jump.enabled;
            let effects = !(done is Effects) && (pending.needs_focused_effect_update
                || pending.needs_all_effects_update);
            &&& comes_next(state, config, done, SyncStage::Focus) <==> focus
            &&& comes_next(state, config, done, SyncStage::Redraw) <==> redraw && !focus
            &&& comes_next(state, config, done, SyncStage::Cursor) <==> cursor && !focus && !redraw
            &&& comes_next(state, config, done, SyncStage::Effects) <==> effects && !focus
                && !redraw && !cursor
            &&& comes_next(state, config, done, SyncStage::Finished) <==> !focus && !redraw
                && !cursor && !effects
        }),
{
    lemma_one_stage_comes_next(state, config, done);
    law_sync_moves_forward(state, config, done);
    assert(SyncStage::Begin.rank() == 0);
    assert(SyncStage::Focus.rank() == 1);
    assert(SyncStage::Redraw.rank() == 2);
    assert(SyncStage::Cursor.rank() == 3);
    assert(SyncStage::Effects.rank() == 4);
    assert(SyncStage::Finished.rank() == 5);
}

/// The actions that carry focus over, from some replies on and up to a limit,
/// where the system answers `foreground` for the window with focus and `focus`
/// and `convergence` come of moving it, and listeners can be told.
pub open spec fn focus_actions(
    focused: Container,
    os: TargetOs,
    config: UserConfig,
    replies: FocusReplies,
    foreground: Reading<WindowId>,
    focus: Outcome,
    limit: nat,
) -> Seq<FocusAction>
    decreases limit,
{
    let action = focus_action(focused, os, config, replies);
    if limit == 0 || action is Done || action is Failed {
        Seq::empty()
    } else {
        seq![action] + focus_actions(
            focused,
            os,
            config,
            match action {
                FocusAction::AskForeground => FocusReplies { foreground, ..replies },
                FocusAction::FocusWindow(_) | FocusAction::ResetFocus => FocusReplies {
                    focus,
                    ..replies
                },
                FocusAction::ScheduleConvergence { .. } => FocusReplies {
                    convergence: Outcome::Answered(true),
                    ..replies
                },
                _ => FocusReplies { announcement: Outcome::Answered(true), ..replies },
            },
            foreground,
            focus,
            (limit - 1) as nat,
        )
    }
}

/// To carry focus over, the system is asked on Windows which window has it; then
/// the window that is to have it is focused or, where that is no window, the
/// desktop. On Windows, and where focus is to be won back, it is seen to that
/// focus arrives, if it goes to a window from a window that is known. Last it is
/// announced. Whether moving focus fails makes no difference.
pub proof fn law_focus_is_carried_over_in_these_steps(
    focused: Container,
    os: TargetOs,
    config: UserConfig,
    foreground: Reading<WindowId>,
    focus: Outcome,
)
    requires
        !(foreground is Unread),
        !(focus is Pending),
    ensures
        ({
            let none = FocusReplies {
                foreground: Reading::Unread,
                focus: Outcome::Pending,
                convergence: Outcome::Pending,
                announcement: Outcome::Pending,
            };
            let asked = if os == TargetOs::Windows {
                seq![FocusAction::AskForeground]
            } else {
                Seq::empty()
            };
            let moved = match focused.window {
                Some(w) => seq![FocusAction::FocusWindow(w.native)],
                None => seq![FocusAction::ResetFocus],
            };
            let converged = match (focused.window, foreground) {
                (Some(w), Reading::Read(previous)) => if os == TargetOs::Windows
                    && config.general.restore_focus_on_shell {
                    seq![FocusAction::ScheduleConvergence { target: w.native, previous }]
                } else {
                    Seq::empty()
                },
                _ => Seq::empty(),
            };
            let told = seq![
                FocusAction::Announce(WmEvent::FocusChanged { focused_container: focused.id }),
            ];
            focus_actions(focused, os, config, none, foreground, focus, 8) == asked + moved
                + converged + told
        }),
{
    reveal_with_fuel(focus_actions, 7);
}

/// Whether a jump goes to the center of a rect or, where that cannot be worked
/// out, fails for the same reason.
pub open spec fn goes_to_center(
    jump: Result<CursorJump, WmError>,
    rect: Result<Rect, String>,
) -> bool {
    match (jump, rect) {
        (Ok(CursorJump::ToCenterOf(to)), Ok(rect)) => to == rect,
        (Err(WmError::RectUnavailable(why)), Err(reason)) => why == reason,
        _ => false,
    }
}

/// Where the cursor follows windows, it jumps to the center of what has focus,
/// wherever it is. Where it follows monitors, it jumps to the center of the
/// monitor that has focus just if it is known to be on another one; it is asked
/// where it is first.
pub proof fn law_cursor_follows_focus(
    focused: Container,
    state: WmState,
    config: UserConfig,
    cursor_monitor: Reading<ContainerId>,
)
    ensures
        ({
            let jump = cursor_jump(focused, state, config, cursor_monitor);
            let stay = Ok::<CursorJump, WmError>(CursorJump::Stay);
            match config.general.cursor_jump.trigger {
                CursorJumpTrigger::WindowFocus => goes_to_center(jump, focused.rect),
                CursorJumpTrigger::MonitorFocus => match state.monitor_of(focused) {
                    None => jump == Err::<CursorJump, WmError>(WmError::NoMonitor),
                    Some(target) => {
                        &&& cursor_monitor is Unread ==> jump == Ok::<CursorJump, WmError>(
                            CursorJump::LocateCursor,
                        )
                        &&& cursor_monitor is Failed ==> jump == stay
                        &&& cursor_monitor == Reading::Read(target.id) ==> jump == stay
                        &&& cursor_monitor is Read && cursor_monitor->Read_0 != target.id
                            ==> goes_to_center(jump, target.rect)
                    },
                },
            }
        }),
{
}

/// Where listeners cannot be told of focus, carrying it over fails, and only
/// there.
pub proof fn law_unannounced_focus_is_a_failure(
    focused: Container,
    os: TargetOs,
    config: UserConfig,
    replies: FocusReplies,
)
    ensures
        focus_action(focused, os, config, replies) is Announce ==> focus_action(
            focused,
            os,
            config,
            FocusReplies { announcement: Outcome::Failed, ..replies },
        ) is Failed,
        focus_action(focused, os, config, replies) is Failed ==> replies.announcement is Failed,
{
}

/// Where every redraw can be planned, every job of a sync can be worked out.
pub proof fn law_plannable_redraws_can_be_synced(
    state: WmState,
    config: UserConfig,
    done: SyncStage,
    report: Result<(), WmError>,
)
    requires
        planned_redraws_fit(state, config),
    ensures
        sync_fits(state, config, done, report),
{
}

} // verus!
