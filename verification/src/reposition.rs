//! How a window is put where it belongs, and shown or hidden.

use vstd::prelude::*;

use crate::config::{HideMethod, UserConfig};
use crate::fullscreen::{
    is_of_ordinary_size, is_own_frame_in_range, keeps_own_fullscreen_frame,
};
use crate::rect::{fits, is_in_range, Rect};
use crate::state::{
    Container, HideCorner, Monitor, TargetOs, Window, WindowState, WindowZOrder, WmState,
};

verus! {

/// How many pixels of a window put away in a corner stay in sight.
pub const VISIBLE_SLIVER: i32 = 1;

/// Why a window cannot be placed.
#[derive(PartialEq, Eq, Clone, Debug)]
pub enum PlacementError {
    /// Its rect cannot be worked out, for the given reason.
    NoRect(String),
    /// It is on no monitor.
    NoMonitor,
}

impl PlacementError {
    /// The error in words.
    pub fn message(&self) -> (r: &str)
        ensures
            r@ == match *self {
                PlacementError::NoRect(reason) => reason@,
                PlacementError::NoMonitor => "No monitor."@,
            },
    {
        match self {
            PlacementError::NoRect(reason) => reason.as_str(),
            PlacementError::NoMonitor => "No monitor.",
        }
    }
}

/// How the Windows API is asked to move a window.
#[derive(PartialEq, Eq, Structural, Clone, Copy, Debug)]
pub struct SwpFlags {
    pub no_activate: bool,
    pub no_copy_bits: bool,
    pub no_send_changing: bool,
    pub async_window_pos: bool,
    pub no_move: bool,
    pub no_size: bool,
    pub frame_changed: bool,
}

/// What decides how a window is positioned on Windows.
#[derive(PartialEq, Eq, Structural, Clone, Copy, Debug)]
pub struct Positioning {
    pub state: WindowState,
    /// Whether the window has taken its whole monitor by itself.
    pub keeps_own_frame: bool,
    pub rect: Rect,
    pub z_order: WindowZOrder,
    pub is_visible: bool,
    pub hide_method: HideMethod,
    pub has_pending_dpi_adjustment: bool,
}

/// How a window is placed.
#[derive(PartialEq, Eq, Structural, Clone, Copy, Debug)]
pub enum Placement {
    /// The window is given a frame.
    SetFrame(Rect),
    /// The window is given a size and left where the user drags it.
    Resize { width: i32, height: i32 },
    /// The window is positioned, restacked, and shown or hidden.
    Position(Positioning),
    /// The window is left alone.
    Untouched,
}

/// A call to the system, made on the window that is placed.
#[derive(PartialEq, Eq, Structural, Clone, Copy, Debug)]
pub enum PlacementCall {
    IsMinimized,
    IsMaximized,
    HasMaximizeBox,
    Restore(Rect),
    Minimize,
    Maximize,
    SetWindowPos { z_order: WindowZOrder, rect: Rect, flags: SwpFlags },
    SetCloaked(bool),
    Show,
    Hide,
    SetFrame(Rect),
    Resize { width: i32, height: i32 },
}

/// Steps of placing a window, each of which is one call to the system.
#[derive(PartialEq, Eq, Structural, Clone, Copy, Debug)]
pub enum PlacementStep {
    /// Is the window minimized to begin with?
    MinimizedAtFirst,
    /// Is the window maximized to begin with?
    MaximizedAtFirst,
    Restore,
    /// Is the window minimized already?
    Minimized,
    Minimize,
    MaximizeBox,
    /// Is the window maximized already?
    Maximized,
    Maximize,
    Position,
    PositionAgain,
    Visibility,
    Frame,
}

/// What came of a step.
#[derive(PartialEq, Eq, Structural, Clone, Copy, Debug)]
pub enum Outcome {
    /// The call has not been made.
    Pending,
    Failed,
    /// The call was answered. The answer to a call that asks nothing does not
    /// matter.
    Answered(bool),
}

/// What came of each step so far.
#[derive(PartialEq, Eq, Structural, Clone, Copy, Debug)]
pub struct PlacementReplies {
    pub minimized_at_first: Outcome,
    pub maximized_at_first: Outcome,
    pub restore: Outcome,
    pub minimized: Outcome,
    pub minimize: Outcome,
    pub maximize_box: Outcome,
    pub maximized: Outcome,
    pub maximize: Outcome,
    pub position: Outcome,
    pub position_again: Outcome,
    pub visibility: Outcome,
    pub frame: Outcome,
}

/// How far the placing of a window has come.
#[derive(PartialEq, Eq, Structural, Clone, Copy, Debug)]
pub enum PlacementStatus {
    Next(PlacementStep),
    /// A call failed, and no more is done about the window.
    Failed,
    Done,
}

/// A condition that a step may have to be made for.
#[derive(PartialEq, Eq, Structural, Clone, Copy, Debug)]
pub enum Condition {
    Known(bool),
    Needs(PlacementStep),
    Failed,
}

impl Outcome {
    /// The outcome as the answer to a question that `step` asks.
    pub open spec fn answer(self, step: PlacementStep) -> Condition {
        match self {
            Outcome::Pending => Condition::Needs(step),
            Outcome::Failed => Condition::Failed,
            Outcome::Answered(b) => Condition::Known(b),
        }
    }

    /// The outcome of a command that `step` gives.
    pub open spec fn command(self, step: PlacementStep) -> PlacementStatus {
        match self {
            Outcome::Pending => PlacementStatus::Next(step),
            Outcome::Failed => PlacementStatus::Failed,
            Outcome::Answered(_) => PlacementStatus::Done,
        }
    }

    /// The outcome as the answer to a question that `step` asks.
    fn to_condition(self, step: PlacementStep) -> (r: Condition)
        ensures
            r == self.answer(step),
    {
        match self {
            Outcome::Pending => Condition::Needs(step),
            Outcome::Failed => Condition::Failed,
            Outcome::Answered(b) => Condition::Known(b),
        }
    }

    /// The outcome of a command that `step` gives.
    fn to_status(self, step: PlacementStep) -> (r: PlacementStatus)
        ensures
            r == self.command(step),
    {
        match self {
            Outcome::Pending => PlacementStatus::Next(step),
            Outcome::Failed => PlacementStatus::Failed,
            Outcome::Answered(_) => PlacementStatus::Done,
        }
    }
}

impl Condition {
    /// Whether this holds or, where it does not, `other` does.
    pub open spec fn or_else(self, other: Condition) -> Condition {
        if self == Condition::Known(false) {
            other
        } else {
            self
        }
    }

    /// Whether this does not hold.
    pub open spec fn negated(self) -> Condition {
        match self {
            Condition::Known(b) => Condition::Known(!b),
            _ => self,
        }
    }

    /// One of two courses, by whether this holds.
    pub open spec fn choice(self, yes: PlacementStatus, no: PlacementStatus) -> PlacementStatus {
        match self {
            Condition::Known(b) => if b {
                yes
            } else {
                no
            },
            Condition::Needs(step) => PlacementStatus::Next(step),
            Condition::Failed => PlacementStatus::Failed,
        }
    }

    /// Whether this holds or, where it does not, `other` does.
    fn or(self, other: Condition) -> (r: Condition)
        ensures
            r == self.or_else(other),
    {
        match self {
            Condition::Known(false) => other,
            _ => self,
        }
    }

    /// Whether this does not hold.
    fn not(self) -> (r: Condition)
        ensures
            r == self.negated(),
    {
        match self {
            Condition::Known(b) => Condition::Known(!b),
            _ => self,
        }
    }

    /// One of two courses, by whether this holds.
    fn select(self, yes: PlacementStatus, no: PlacementStatus) -> (r: PlacementStatus)
        ensures
            r == self.choice(yes, no),
    {
        match self {
            Condition::Known(true) => yes,
            Condition::Known(false) => no,
            Condition::Needs(step) => PlacementStatus::Next(step),
            Condition::Failed => PlacementStatus::Failed,
        }
    }
}

impl PlacementStatus {
    /// This course and, once it is done, the next.
    pub open spec fn sequence(self, next: PlacementStatus) -> PlacementStatus {
        if self is Done {
            next
        } else {
            self
        }
    }

    /// This course and, once it is done, the next.
    fn followed_by(self, next: PlacementStatus) -> (r: PlacementStatus)
        ensures
            r == self.sequence(next),
    {
        match self {
            PlacementStatus::Done => next,
            _ => self,
        }
    }
}

impl PlacementReplies {
    /// What came of one step.
    pub open spec fn at(self, step: PlacementStep) -> Outcome {
        match step {
            PlacementStep::MinimizedAtFirst => self.minimized_at_first,
            PlacementStep::MaximizedAtFirst => self.maximized_at_first,
            PlacementStep::Restore => self.restore,
            PlacementStep::Minimized => self.minimized,
            PlacementStep::Minimize => self.minimize,
            PlacementStep::MaximizeBox => self.maximize_box,
            PlacementStep::Maximized => self.maximized,
            PlacementStep::Maximize => self.maximize,
            PlacementStep::Position => self.position,
            PlacementStep::PositionAgain => self.position_again,
            PlacementStep::Visibility => self.visibility,
            PlacementStep::Frame => self.frame,
        }
    }

    /// Whether `after` is `self` but for what came of `step`.
    pub open spec fn recorded(
        self,
        step: PlacementStep,
        outcome: Outcome,
        after: PlacementReplies,
    ) -> bool {
        &&& after.at(step) == outcome
        &&& forall|other: PlacementStep| other != step ==> #[trigger] after.at(other) == self.at(
            other,
        )
    }

    /// Nothing has been done yet.
    pub fn new() -> (r: PlacementReplies)
        ensures
            forall|step: PlacementStep| #[trigger] r.at(step) == Outcome::Pending,
    {
        PlacementReplies {
            minimized_at_first: Outcome::Pending,
            maximized_at_first: Outcome::Pending,
            restore: Outcome::Pending,
            minimized: Outcome::Pending,
            minimize: Outcome::Pending,
            maximize_box: Outcome::Pending,
            maximized: Outcome::Pending,
            maximize: Outcome::Pending,
            position: Outcome::Pending,
            position_again: Outcome::Pending,
            visibility: Outcome::Pending,
            frame: Outcome::Pending,
        }
    }

    /// Takes note of what came of a step.
    pub fn record(&mut self, step: PlacementStep, outcome: Outcome)
        ensures
            old(self).recorded(step, outcome, *final(self)),
    {
        match step {
            PlacementStep::MinimizedAtFirst => self.minimized_at_first = outcome,
            PlacementStep::MaximizedAtFirst => self.maximized_at_first = outcome,
            PlacementStep::Restore => self.restore = outcome,
            PlacementStep::Minimized => self.minimized = outcome,
            PlacementStep::Minimize => self.minimize = outcome,
            PlacementStep::MaximizeBox => self.maximize_box = outcome,
            PlacementStep::Maximized => self.maximized = outcome,
            PlacementStep::Maximize => self.maximize = outcome,
            PlacementStep::Position => self.position = outcome,
            PlacementStep::PositionAgain => self.position_again = outcome,
            PlacementStep::Visibility => self.visibility = outcome,
            PlacementStep::Frame => self.frame = outcome,
        }
    }
}

/// Where the frame of a window that is put away in a corner goes: all but a
/// sliver of it outside the working area.
pub open spec fn corner_rect(working_area: Rect, frame: Rect, corner: HideCorner) -> Rect {
    let left = match corner {
        HideCorner::BottomLeft => working_area.left + VISIBLE_SLIVER - frame.spec_width(),
        HideCorner::BottomRight => working_area.right - VISIBLE_SLIVER,
    };
    let top = working_area.bottom - VISIBLE_SLIVER;
    Rect {
        left: left as i32,
        top: top as i32,
        right: (left + frame.spec_width()) as i32,
        bottom: (top + frame.spec_height()) as i32,
    }
}

/// Whether a frame can be put away in a corner without leaving the coordinate
/// range.
pub open spec fn corner_fits(working_area: Rect, frame: Rect, corner: HideCorner) -> bool {
    &&& fits(frame.spec_width())
    &&& fits(frame.spec_height())
    &&& fits(working_area.bottom - VISIBLE_SLIVER)
    &&& fits(working_area.bottom - VISIBLE_SLIVER + frame.spec_height())
    &&& match corner {
        HideCorner::BottomLeft => {
            &&& fits(working_area.left + VISIBLE_SLIVER)
            &&& fits(working_area.left + VISIBLE_SLIVER - frame.spec_width())
        },
        HideCorner::BottomRight => {
            &&& fits(working_area.right - VISIBLE_SLIVER)
            &&& fits(working_area.right - VISIBLE_SLIVER + frame.spec_width())
        },
    }
}

/// Whether a frame can be put away in a corner without leaving the coordinate
/// range.
fn is_corner_in_range(working_area: &Rect, frame: &Rect, corner: HideCorner) -> (r: bool)
    ensures
        r == corner_fits(*working_area, *frame, corner),
{
    let sliver: i64 = VISIBLE_SLIVER as i64;
    let width: i64 = frame.wide_width();
    let height: i64 = frame.wide_height();
    let top: i64 = working_area.bottom as i64 - sliver;
    is_in_range(width) && is_in_range(height) && is_in_range(top) && is_in_range(top + height)
        && match corner {
        HideCorner::BottomLeft => {
            let sliver_end: i64 = working_area.left as i64 + sliver;
            is_in_range(sliver_end) && is_in_range(sliver_end - width)
        },
        HideCorner::BottomRight => {
            let left: i64 = working_area.right as i64 - sliver;
            is_in_range(left) && is_in_range(left + width)
        },
    }
}

/// Whether a window is put away in a corner of its monitor.
pub open spec fn put_in_corner(is_visible: bool, config: UserConfig) -> bool {
    config.general.hide_method == HideMethod::PlaceInCorner && !is_visible
}

/// Whether a window can be placed without leaving the coordinate range.
pub open spec fn placement_fits(
    state: WmState,
    c: Container,
    corner: HideCorner,
    is_visible: bool,
    config: UserConfig,
) -> bool {
    c.window matches Some(w) ==> (w.placement matches Ok(rect) ==> {
        if put_in_corner(is_visible, config) {
            state.monitor_of(c) matches Some(m) ==> corner_fits(
                m.working_area,
                w.native_properties.frame,
                corner,
            )
        } else {
            &&& w.has_active_drag ==> fits(rect.spec_width()) && fits(rect.spec_height())
            &&& !w.has_active_drag && state.os == TargetOs::Windows ==> state.own_frame_fits(c)
        }
    })
}

/// Whether a window can be placed without leaving the coordinate range.
pub fn is_placement_in_range(
    container: &Container,
    hide_corner: HideCorner,
    is_visible: bool,
    state: &WmState,
    config: &UserConfig,
) -> (r: bool)
    ensures
        r == placement_fits(*state, *container, hide_corner, is_visible, *config),
{
    let window = match &container.window {
        Some(window) => window,
        None => return true,
    };
    let rect = match &window.placement {
        Ok(rect) => *rect,
        Err(_) => return true,
    };
    if config.general.hide_method == HideMethod::PlaceInCorner && !is_visible {
        match state.containing_monitor(container) {
            Some(monitor) => is_corner_in_range(
                &monitor.working_area,
                &window.native_properties.frame,
                hide_corner,
            ),
            None => true,
        }
    } else if window.has_active_drag {
        is_in_range(rect.wide_width()) && is_in_range(rect.wide_height())
    } else {
        state.os != TargetOs::Windows || is_own_frame_in_range(container, state)
    }
}

/// How a window is placed.
pub open spec fn placement_of(
    state: WmState,
    c: Container,
    corner: HideCorner,
    z_order: WindowZOrder,
    is_visible: bool,
    config: UserConfig,
) -> Result<Placement, PlacementError> {
    let w = c.window->0;
    if let Err(reason) = w.placement {
        Err(PlacementError::NoRect(reason))
    } else if put_in_corner(is_visible, config) {
        match state.monitor_of(c) {
            Some(m) => Ok(
                Placement::SetFrame(corner_rect(m.working_area, w.native_properties.frame, corner)),
            ),
            None => Err(PlacementError::NoMonitor),
        }
    } else {
        let rect = w.placement->Ok_0;
        if w.has_active_drag {
            Ok(
                Placement::Resize {
                    width: rect.spec_width() as i32,
                    height: rect.spec_height() as i32,
                },
            )
        } else {
            match state.os {
                TargetOs::MacOs => Ok(Placement::SetFrame(rect)),
                TargetOs::Windows => Ok(
                    Placement::Position(
                        Positioning {
                            state: w.state,
                            keeps_own_frame: state.keeps_own_frame(c),
                            rect,
                            z_order,
                            is_visible,
                            hide_method: config.general.hide_method,
                            has_pending_dpi_adjustment: w.has_pending_dpi_adjustment,
                        },
                    ),
                ),
                TargetOs::Other => Ok(Placement::Untouched),
            }
        }
    }
}

/// Decides how a window is placed.
pub fn reposition_window(
    container: &Container,
    hide_corner: HideCorner,
    z_order: WindowZOrder,
    is_visible: bool,
    state: &WmState,
    config: &UserConfig,
) -> (r: Result<Placement, PlacementError>)
    requires
        container.window is Some,
        placement_fits(*state, *container, hide_corner, is_visible, *config),
    ensures
        r == placement_of(*state, *container, hide_corner, z_order, is_visible, *config),
{
    let window = match &container.window {
        Some(window) => window,
        None => return Err(PlacementError::NoMonitor),
    };
    let rect = match &window.placement {
        Ok(rect) => *rect,
        Err(reason) => return Err(PlacementError::NoRect(reason.clone())),
    };

    // Hidden windows are moved to the corner of the monitor.
    if config.general.hide_method == HideMethod::PlaceInCorner && !is_visible {
        let monitor_rect = match state.containing_monitor(container) {
            Some(monitor) => monitor.working_area,
            None => return Err(PlacementError::NoMonitor),
        };
        let frame = window.native_properties.frame;
        let position_y: i32 = monitor_rect.bottom - VISIBLE_SLIVER;
        let position_x: i32 = match hide_corner {
            HideCorner::BottomLeft => monitor_rect.left + VISIBLE_SLIVER - frame.width(),
            HideCorner::BottomRight => monitor_rect.right - VISIBLE_SLIVER,
        };
        return Ok(
            Placement::SetFrame(
                Rect::from_xy(position_x, position_y, frame.width(), frame.height()),
            ),
        );
    }
    if window.has_active_drag {
        return Ok(Placement::Resize { width: rect.width(), height: rect.height() });
    }
    match state.os {
        TargetOs::MacOs => Ok(Placement::SetFrame(rect)),
        TargetOs::Windows => Ok(
            Placement::Position(
                Positioning {
                    state: window.state,
                    keeps_own_frame: keeps_own_fullscreen_frame(container, state),
                    rect,
                    z_order,
                    is_visible,
                    hide_method: config.general.hide_method,
                    has_pending_dpi_adjustment: window.has_pending_dpi_adjustment,
                },
            ),
        ),
        TargetOs::Other => Ok(Placement::Untouched),
    }
}

impl Positioning {
    /// Whether the window is minimized or maximized and should not be, so that
    /// it cannot be moved and resized before it is restored.
    pub open spec fn needs_restore(self, replies: PlacementReplies) -> Condition {
        if self.keeps_own_frame {
            Condition::Known(false)
        } else {
            match self.state {
                WindowState::Fullscreen(fullscreen) => if fullscreen.maximized {
                    Condition::Known(false)
                } else {
                    replies.maximized_at_first.answer(PlacementStep::MaximizedAtFirst)
                },
                WindowState::Minimized => Condition::Known(false),
                _ => replies.minimized_at_first.answer(PlacementStep::MinimizedAtFirst).or_else(
                    replies.maximized_at_first.answer(PlacementStep::MaximizedAtFirst),
                ),
            }
        }
    }

    /// Whether the window is maximized by the system rather than sized by the
    /// window manager.
    pub open spec fn maximizes(self, replies: PlacementReplies) -> Condition {
        match self.state {
            WindowState::Fullscreen(fullscreen) => if fullscreen.maximized {
                replies.maximize_box.answer(PlacementStep::MaximizeBox)
            } else {
                Condition::Known(false)
            },
            _ => Condition::Known(false),
        }
    }

    /// The course that brings the window into its place.
    pub open spec fn placing(self, replies: PlacementReplies) -> PlacementStatus {
        if self.state is Minimized {
            replies.minimized.answer(PlacementStep::Minimized).choice(
                PlacementStatus::Done,
                replies.minimize.command(PlacementStep::Minimize),
            )
        } else {
            let maximize = if self.keeps_own_frame {
                PlacementStatus::Done
            } else {
                replies.maximized.answer(PlacementStep::Maximized).choice(
                    PlacementStatus::Done,
                    replies.maximize.command(PlacementStep::Maximize),
                )
            };
            let position = replies.position.command(PlacementStep::Position);
            let again = if self.has_pending_dpi_adjustment {
                replies.position_again.command(PlacementStep::PositionAgain)
            } else {
                PlacementStatus::Done
            };
            self.maximizes(replies).choice(maximize.sequence(position), position.sequence(again))
        }
    }

    /// The whole course: restored where need be, brought into its place, then
    /// shown or hidden.
    pub open spec fn course(self, replies: PlacementReplies) -> PlacementStatus {
        self.needs_restore(replies).choice(
            replies.restore.command(PlacementStep::Restore),
            PlacementStatus::Done,
        ).sequence(self.placing(replies)).sequence(
            replies.visibility.command(PlacementStep::Visibility),
        )
    }

    /// How the system is asked to move the window.
    pub open spec fn flags(self, replies: PlacementReplies) -> SwpFlags {
        SwpFlags {
            no_activate: true,
            no_copy_bits: true,
            no_send_changing: true,
            async_window_pos: true,
            no_move: self.keeps_own_frame,
            no_size: self.keeps_own_frame,
            frame_changed: !self.keeps_own_frame && self.maximizes(replies) == Condition::Known(
                false,
            ),
        }
    }

    /// Whether the window is minimized or maximized and should not be.
    fn should_restore(&self, replies: &PlacementReplies) -> (r: Condition)
        ensures
            r == self.needs_restore(*replies),
    {
        if self.keeps_own_frame {
            return Condition::Known(false);
        }
        match self.state {
            // Coming from maximized fullscreen to non-maximized fullscreen.
            WindowState::Fullscreen(fullscreen) => if fullscreen.maximized {
                Condition::Known(false)
            } else {
                replies.maximized_at_first.to_condition(PlacementStep::MaximizedAtFirst)
            },
            // Going from maximized to minimized works without restoring.
            WindowState::Minimized => Condition::Known(false),
            _ => replies.minimized_at_first.to_condition(PlacementStep::MinimizedAtFirst).or(
                replies.maximized_at_first.to_condition(PlacementStep::MaximizedAtFirst),
            ),
        }
    }

    /// Whether the window is maximized by the system.
    fn should_maximize(&self, replies: &PlacementReplies) -> (r: Condition)
        ensures
            r == self.maximizes(*replies),
    {
        match self.state {
            WindowState::Fullscreen(fullscreen) => if fullscreen.maximized {
                replies.maximize_box.to_condition(PlacementStep::MaximizeBox)
            } else {
                Condition::Known(false)
            },
            _ => Condition::Known(false),
        }
    }

    /// How far the window has come into its place.
    fn place(&self, replies: &PlacementReplies) -> (r: PlacementStatus)
        ensures
            r == self.placing(*replies),
    {
        if matches!(self.state, WindowState::Minimized) {
            return replies.minimized.to_condition(PlacementStep::Minimized).not().select(
                replies.minimize.to_status(PlacementStep::Minimize),
                PlacementStatus::Done,
            );
        }
        // Maximizing a window that is drawing over the whole monitor on its own
        // terms would take it back out of that.
        let maximize = if self.keeps_own_frame {
            PlacementStatus::Done
        } else {
            replies.maximized.to_condition(PlacementStep::Maximized).not().select(
                replies.maximize.to_status(PlacementStep::Maximize),
                PlacementStatus::Done,
            )
        };
        let position = replies.position.to_status(PlacementStep::Position);
        // Where the DPI of the monitor and of the window differ, the window
        // might be sized incorrectly after the first move.
        let again = if self.has_pending_dpi_adjustment {
            replies.position_again.to_status(PlacementStep::PositionAgain)
        } else {
            PlacementStatus::Done
        };
        self.should_maximize(replies).select(
            maximize.followed_by(position),
            position.followed_by(again),
        )
    }

    /// How far the window has come.
    fn status(&self, replies: &PlacementReplies) -> (r: PlacementStatus)
        ensures
            r == self.course(*replies),
    {
        self.should_restore(replies).select(
            replies.restore.to_status(PlacementStep::Restore),
            PlacementStatus::Done,
        ).followed_by(self.place(replies)).followed_by(
            replies.visibility.to_status(PlacementStep::Visibility),
        )
    }

    /// How the system is asked to move the window.
    fn swp_flags(&self, replies: &PlacementReplies) -> (r: SwpFlags)
        ensures
            r == self.flags(*replies),
    {
        SwpFlags {
            no_activate: true,
            no_copy_bits: true,
            no_send_changing: true,
            async_window_pos: true,
            no_move: self.keeps_own_frame,
            no_size: self.keeps_own_frame,
            frame_changed: !self.keeps_own_frame && self.should_maximize(replies)
                == Condition::Known(false),
        }
    }
}

/// The call that a step of positioning a window makes.
pub open spec fn positioning_call(
    p: Positioning,
    replies: PlacementReplies,
    step: PlacementStep,
) -> PlacementCall {
    let set_window_pos = PlacementCall::SetWindowPos {
        z_order: p.z_order,
        rect: p.rect,
        flags: p.flags(replies),
    };
    match step {
        PlacementStep::MinimizedAtFirst => PlacementCall::IsMinimized,
        PlacementStep::MaximizedAtFirst => PlacementCall::IsMaximized,
        PlacementStep::Restore => PlacementCall::Restore(p.rect),
        PlacementStep::Minimized => PlacementCall::IsMinimized,
        PlacementStep::Minimize => PlacementCall::Minimize,
        PlacementStep::MaximizeBox => PlacementCall::HasMaximizeBox,
        PlacementStep::Maximized => PlacementCall::IsMaximized,
        PlacementStep::Maximize => PlacementCall::Maximize,
        PlacementStep::Position => set_window_pos,
        PlacementStep::PositionAgain => set_window_pos,
        PlacementStep::Visibility => if p.hide_method == HideMethod::Cloak {
            PlacementCall::SetCloaked(!p.is_visible)
        } else if p.is_visible {
            PlacementCall::Show
        } else {
            PlacementCall::Hide
        },
        PlacementStep::Frame => PlacementCall::SetFrame(p.rect),
    }
}

/// What to do next about a window that is being placed.
#[derive(PartialEq, Eq, Structural, Clone, Copy, Debug)]
pub enum PlacementAction {
    /// Make a call, and record what comes of it under the step.
    Call(PlacementStep, PlacementCall),
    /// A call failed, and no more is done about the window.
    GiveUp,
    Done,
}

impl PlacementAction {
    /// A placement that is a single call.
    pub open spec fn single(outcome: Outcome, call: PlacementCall) -> PlacementAction {
        match outcome {
            Outcome::Pending => PlacementAction::Call(PlacementStep::Frame, call),
            Outcome::Failed => PlacementAction::GiveUp,
            Outcome::Answered(_) => PlacementAction::Done,
        }
    }

    /// A placement that is a single call.
    fn only(outcome: Outcome, call: PlacementCall) -> (r: PlacementAction)
        ensures
            r == PlacementAction::single(outcome, call),
    {
        match outcome {
            Outcome::Pending => PlacementAction::Call(PlacementStep::Frame, call),
            Outcome::Failed => PlacementAction::GiveUp,
            Outcome::Answered(_) => PlacementAction::Done,
        }
    }
}

/// What is done next, given what came of each step so far.
pub open spec fn placement_action(
    placement: Placement,
    replies: PlacementReplies,
) -> PlacementAction {
    match placement {
        Placement::SetFrame(rect) => PlacementAction::single(
            replies.frame,
            PlacementCall::SetFrame(rect),
        ),
        Placement::Resize { width, height } => PlacementAction::single(
            replies.frame,
            PlacementCall::Resize { width, height },
        ),
        Placement::Position(p) => match p.course(replies) {
            PlacementStatus::Next(step) => PlacementAction::Call(
                step,
                positioning_call(p, replies, step),
            ),
            PlacementStatus::Failed => PlacementAction::GiveUp,
            PlacementStatus::Done => PlacementAction::Done,
        },
        Placement::Untouched => PlacementAction::Done,
    }
}

/// Decides what to do next about a window that is being placed, given what
/// came of each step so far.
pub fn next_placement_action(placement: &Placement, replies: &PlacementReplies) -> (r:
    PlacementAction)
    ensures
        r == placement_action(*placement, *replies),
{
    let p = match placement {
        Placement::SetFrame(rect) => {
            return PlacementAction::only(replies.frame, PlacementCall::SetFrame(*rect));
        },
        Placement::Resize { width, height } => {
            let call = PlacementCall::Resize { width: *width, height: *height };
            return PlacementAction::only(replies.frame, call);
        },
        Placement::Position(p) => p,
        Placement::Untouched => return PlacementAction::Done,
    };
    let step = match p.status(replies) {
        PlacementStatus::Next(step) => step,
        PlacementStatus::Failed => return PlacementAction::GiveUp,
        PlacementStatus::Done => return PlacementAction::Done,
    };
    let call = match step {
        PlacementStep::MinimizedAtFirst => PlacementCall::IsMinimized,
        PlacementStep::MaximizedAtFirst => PlacementCall::IsMaximized,
        PlacementStep::Restore => PlacementCall::Restore(p.rect),
        PlacementStep::Minimized => PlacementCall::IsMinimized,
        PlacementStep::Minimize => PlacementCall::Minimize,
        PlacementStep::MaximizeBox => PlacementCall::HasMaximizeBox,
        PlacementStep::Maximized => PlacementCall::IsMaximized,
        PlacementStep::Maximize => PlacementCall::Maximize,
        PlacementStep::Position | PlacementStep::PositionAgain => PlacementCall::SetWindowPos {
            z_order: p.z_order,
            rect: p.rect,
            flags: p.swp_flags(replies),
        },
        PlacementStep::Visibility => if p.hide_method == HideMethod::Cloak {
            PlacementCall::SetCloaked(!p.is_visible)
        } else if p.is_visible {
            PlacementCall::Show
        } else {
            PlacementCall::Hide
        },
        PlacementStep::Frame => PlacementCall::SetFrame(p.rect),
    };
    PlacementAction::Call(step, call)
}

/// The steps, in the order in which they can be made.
pub open spec fn step_at(i: int) -> PlacementStep {
    if i == 0 {
        PlacementStep::MinimizedAtFirst
    } else if i == 1 {
        PlacementStep::MaximizedAtFirst
    } else if i == 2 {
        PlacementStep::Restore
    } else if i == 3 {
        PlacementStep::Minimized
    } else if i == 4 {
        PlacementStep::Minimize
    } else if i == 5 {
        PlacementStep::MaximizeBox
    } else if i == 6 {
        PlacementStep::Maximized
    } else if i == 7 {
        PlacementStep::Maximize
    } else if i == 8 {
        PlacementStep::Position
    } else if i == 9 {
        PlacementStep::PositionAgain
    } else if i == 10 {
        PlacementStep::Visibility
    } else {
        PlacementStep::Frame
    }
}

/// What came of each step so far, in the order in which steps can be made.
pub open spec fn outcomes(replies: PlacementReplies) -> Seq<Outcome> {
    Seq::new(12, |i: int| replies.at(step_at(i)))
}

/// Number of steps that have not been made.
pub open spec fn pending_steps(replies: PlacementReplies) -> nat {
    pending_in(outcomes(replies))
}

/// Number of steps among some that have not been made.
pub open spec fn pending_in(outcomes: Seq<Outcome>) -> nat {
    outcomes.filter(|o: Outcome| o is Pending).len()
}

/// Making one step leaves one fewer to make.
pub proof fn lemma_one_pending_fewer(outcomes: Seq<Outcome>, i: int, outcome: Outcome)
    requires
        0 <= i < outcomes.len(),
        outcomes[i] is Pending,
        !(outcome is Pending),
    ensures
        pending_in(outcomes.update(i, outcome)) == pending_in(outcomes) - 1,
    decreases outcomes.len(),
{
    reveal(Seq::filter);
    let after = outcomes.update(i, outcome);
    if i == outcomes.len() - 1 {
        assert(after.drop_last() =~= outcomes.drop_last());
    } else {
        assert(after.drop_last() =~= outcomes.drop_last().update(i, outcome));
        lemma_one_pending_fewer(outcomes.drop_last(), i, outcome);
    }
}

/// Recording what came of a step changes nothing else.
proof fn lemma_recorded(
    before: PlacementReplies,
    step: PlacementStep,
    outcome: Outcome,
    after: PlacementReplies,
)
    requires
        before.recorded(step, outcome, after),
    ensures
        after == (PlacementReplies {
            minimized_at_first: if step is MinimizedAtFirst {
                outcome
            } else {
                before.minimized_at_first
            },
            maximized_at_first: if step is MaximizedAtFirst {
                outcome
            } else {
                before.maximized_at_first
            },
            restore: if step is Restore { outcome } else { before.restore },
            minimized: if step is Minimized { outcome } else { before.minimized },
            minimize: if step is Minimize { outcome } else { before.minimize },
            maximize_box: if step is MaximizeBox { outcome } else { before.maximize_box },
            maximized: if step is Maximized { outcome } else { before.maximized },
            maximize: if step is Maximize { outcome } else { before.maximize },
            position: if step is Position { outcome } else { before.position },
            position_again: if step is PositionAgain { outcome } else { before.position_again },
            visibility: if step is Visibility { outcome } else { before.visibility },
            frame: if step is Frame { outcome } else { before.frame },
        }),
{
    assert(after.at(PlacementStep::MinimizedAtFirst) == after.minimized_at_first);
    assert(after.at(PlacementStep::MaximizedAtFirst) == after.maximized_at_first);
    assert(after.at(PlacementStep::Restore) == after.restore);
    assert(after.at(PlacementStep::Minimized) == after.minimized);
    assert(after.at(PlacementStep::Minimize) == after.minimize);
    assert(after.at(PlacementStep::MaximizeBox) == after.maximize_box);
    assert(after.at(PlacementStep::Maximized) == after.maximized);
    assert(after.at(PlacementStep::Maximize) == after.maximize);
    assert(after.at(PlacementStep::Position) == after.position);
    assert(after.at(PlacementStep::PositionAgain) == after.position_again);
    assert(after.at(PlacementStep::Visibility) == after.visibility);
    assert(after.at(PlacementStep::Frame) == after.frame);
}

/// The next call is one that has not been made.
pub proof fn lemma_next_step_is_pending(placement: Placement, replies: PlacementReplies)
    ensures
        placement_action(placement, replies) matches PlacementAction::Call(step, _)
            ==> replies.at(step) is Pending,
{
}

/// Recording what came of a step leaves one step fewer to make.
pub proof fn lemma_one_step_fewer(
    before: PlacementReplies,
    step: PlacementStep,
    outcome: Outcome,
    after: PlacementReplies,
)
    requires
        before.recorded(step, outcome, after),
        before.at(step) is Pending,
        !(outcome is Pending),
    ensures
        pending_steps(after) == pending_steps(before) - 1,
{
    let i: int = match step {
        PlacementStep::MinimizedAtFirst => 0,
        PlacementStep::MaximizedAtFirst => 1,
        PlacementStep::Restore => 2,
        PlacementStep::Minimized => 3,
        PlacementStep::Minimize => 4,
        PlacementStep::MaximizeBox => 5,
        PlacementStep::Maximized => 6,
        PlacementStep::Maximize => 7,
        PlacementStep::Position => 8,
        PlacementStep::PositionAgain => 9,
        PlacementStep::Visibility => 10,
        PlacementStep::Frame => 11,
    };
    assert(step_at(i) == step);
    assert forall|j: int| 0 <= j < 12 implies #[trigger] outcomes(after)[j] == outcomes(
        before,
    ).update(i, outcome)[j] by {
        if j != i {
            assert(step_at(j) != step);
        }
    }
    assert(outcomes(after) =~= outcomes(before).update(i, outcome));
    lemma_one_pending_fewer(outcomes(before), i, outcome);
}

/// A window that has taken its whole monitor by itself is never restored,
/// maximized, moved or resized, whatever the system answers: all it is asked
/// for is its place in the stack.
pub proof fn law_own_frame_is_left_alone(p: Positioning, replies: PlacementReplies)
    requires
        p.keeps_own_frame,
    ensures
        match placement_action(Placement::Position(p), replies) {
            PlacementAction::Call(_, call) => match call {
                PlacementCall::Restore(_) => false,
                PlacementCall::Maximize => false,
                PlacementCall::SetFrame(_) => false,
                PlacementCall::Resize { .. } => false,
                PlacementCall::SetWindowPos { flags, .. } => {
                    flags.no_move && flags.no_size && !flags.frame_changed
                },
                _ => true,
            },
            _ => true,
        },
{
}

/// A window that the window manager holds minimized is never moved, restored
/// or maximized, whatever the system answers.
pub proof fn law_minimized_window_is_not_moved(p: Positioning, replies: PlacementReplies)
    requires
        p.state is Minimized,
    ensures
        match placement_action(Placement::Position(p), replies) {
            PlacementAction::Call(_, call) => match call {
                PlacementCall::Restore(_) => false,
                PlacementCall::Maximize => false,
                PlacementCall::SetWindowPos { .. } => false,
                _ => true,
            },
            _ => true,
        },
{
}

/// A failed call ends the placing of a window: no call comes after it.
pub proof fn law_failed_call_ends_the_placing(
    placement: Placement,
    before: PlacementReplies,
    after: PlacementReplies,
)
    requires
        placement_action(placement, before) matches PlacementAction::Call(step, _)
            && before.recorded(step, Outcome::Failed, after),
    ensures
        placement_action(placement, after) == PlacementAction::GiveUp,
{
    let step = placement_action(placement, before)->Call_0;
    lemma_recorded(before, step, Outcome::Failed, after);
}

/// No step is made twice, so that a window is placed in a bounded number of
/// calls.
pub proof fn law_no_step_is_repeated(
    placement: Placement,
    before: PlacementReplies,
    answer: bool,
    after: PlacementReplies,
)
    requires
        placement_action(placement, before) matches PlacementAction::Call(step, _)
            && before.recorded(step, Outcome::Answered(answer), after),
    ensures
        pending_steps(after) == pending_steps(before) - 1,
        placement_action(placement, after) matches PlacementAction::Call(next, _) ==> next
            != placement_action(placement, before)->Call_0,
{
    let step = placement_action(placement, before)->Call_0;
    lemma_next_step_is_pending(placement, before);
    lemma_next_step_is_pending(placement, after);
    lemma_one_step_fewer(before, step, Outcome::Answered(answer), after);
}

/// A window whose placing is done has been shown or hidden last, and has been
/// moved into its place before that unless it is held minimized.
pub proof fn law_placed_window_is_shown_or_hidden(p: Positioning, replies: PlacementReplies)
    requires
        placement_action(Placement::Position(p), replies) == PlacementAction::Done,
    ensures
        replies.visibility is Answered,
        !(p.state is Minimized) ==> replies.position is Answered,
{
}

/// A window put away in a corner leaves no more than a sliver in the working
/// area of its monitor, and keeps its size.
pub proof fn law_corner_leaves_a_sliver(working_area: Rect, frame: Rect, corner: HideCorner)
    requires
        corner_fits(working_area, frame, corner),
    ensures
        ({
            let r = corner_rect(working_area, frame, corner);
            &&& r.spec_width() == frame.spec_width()
            &&& r.spec_height() == frame.spec_height()
            &&& r.top == working_area.bottom - VISIBLE_SLIVER
            &&& corner == HideCorner::BottomLeft ==> r.right == working_area.left
                + VISIBLE_SLIVER
            &&& corner == HideCorner::BottomRight ==> r.left == working_area.right
                - VISIBLE_SLIVER
        }),
{
}

/// The replies with what came of one more step.
pub open spec fn with_reply(
    replies: PlacementReplies,
    step: PlacementStep,
    outcome: Outcome,
) -> PlacementReplies {
    match step {
        PlacementStep::MinimizedAtFirst => PlacementReplies {
            minimized_at_first: outcome,
            ..replies
        },
        PlacementStep::MaximizedAtFirst => PlacementReplies {
            maximized_at_first: outcome,
            ..replies
        },
        PlacementStep::Restore => PlacementReplies { restore: outcome, ..replies },
        PlacementStep::Minimized => PlacementReplies { minimized: outcome, ..replies },
        PlacementStep::Minimize => PlacementReplies { minimize: outcome, ..replies },
        PlacementStep::MaximizeBox => PlacementReplies { maximize_box: outcome, ..replies },
        PlacementStep::Maximized => PlacementReplies { maximized: outcome, ..replies },
        PlacementStep::Maximize => PlacementReplies { maximize: outcome, ..replies },
        PlacementStep::Position => PlacementReplies { position: outcome, ..replies },
        PlacementStep::PositionAgain => PlacementReplies { position_again: outcome, ..replies },
        PlacementStep::Visibility => PlacementReplies { visibility: outcome, ..replies },
        PlacementStep::Frame => PlacementReplies { frame: outcome, ..replies },
    }
}

/// Recording what came of a step gives the replies with it.
pub proof fn law_recording_changes_one_reply(
    before: PlacementReplies,
    step: PlacementStep,
    outcome: Outcome,
    after: PlacementReplies,
)
    requires
        before.recorded(step, outcome, after),
    ensures
        after == with_reply(before, step, outcome),
{
    lemma_recorded(before, step, outcome, after);
}

/// The calls that are made on a window from some replies on, up to a limit,
/// where each succeeds and `answers` says what is answered at each step.
pub open spec fn calls_made(
    placement: Placement,
    replies: PlacementReplies,
    answers: spec_fn(PlacementStep) -> bool,
    limit: nat,
) -> Seq<PlacementCall>
    decreases limit,
{
    match placement_action(placement, replies) {
        PlacementAction::Call(step, call) => if limit == 0 {
            Seq::empty()
        } else {
            seq![call] + calls_made(
                placement,
                with_reply(replies, step, Outcome::Answered(answers(step))),
                answers,
                (limit - 1) as nat,
            )
        },
        _ => Seq::empty(),
    }
}

/// The replies before any call is made.
pub open spec fn no_replies() -> PlacementReplies {
    PlacementReplies {
        minimized_at_first: Outcome::Pending,
        maximized_at_first: Outcome::Pending,
        restore: Outcome::Pending,
        minimized: Outcome::Pending,
        minimize: Outcome::Pending,
        maximize_box: Outcome::Pending,
        maximized: Outcome::Pending,
        maximize: Outcome::Pending,
        position: Outcome::Pending,
        position_again: Outcome::Pending,
        visibility: Outcome::Pending,
        frame: Outcome::Pending,
    }
}

/// `call` where `made`, and otherwise none.
pub open spec fn call_if(made: bool, call: PlacementCall) -> Seq<PlacementCall> {
    if made {
        seq![call]
    } else {
        Seq::empty()
    }
}

/// The call that puts a window where the layout has it. It never activates the
/// window, copies what it showed, waits for it or asks it first.
pub open spec fn moving_call(p: Positioning, moves: bool, frame_changed: bool) -> PlacementCall {
    PlacementCall::SetWindowPos {
        z_order: p.z_order,
        rect: p.rect,
        flags: SwpFlags {
            no_activate: true,
            no_copy_bits: true,
            no_send_changing: true,
            async_window_pos: true,
            no_move: !moves,
            no_size: !moves,
            frame_changed,
        },
    }
}

/// The calls that show a window or hide it.
pub open spec fn showing_calls(p: Positioning) -> Seq<PlacementCall> {
    call_if(
        p.hide_method == HideMethod::Cloak,
        PlacementCall::SetCloaked(!p.is_visible),
    ) + call_if(p.hide_method != HideMethod::Cloak && p.is_visible, PlacementCall::Show) + call_if(
        p.hide_method != HideMethod::Cloak && !p.is_visible,
        PlacementCall::Hide,
    )
}

/// Whatever the system answers, a tiling or floating window is restored if it is
/// minimized or maximized, then moved to its rect, a second time where its DPI
/// is off, then shown or hidden. Nothing else is done about it.
pub proof fn law_tiling_or_floating_window_is_put_in_its_place(
    p: Positioning,
    answers: spec_fn(PlacementStep) -> bool,
)
    requires
        p.state is Tiling || p.state is Floating,
        !p.keeps_own_frame,
    ensures
        ({
            let minimized = answers(PlacementStep::MinimizedAtFirst);
            let maximized = answers(PlacementStep::MaximizedAtFirst);
            calls_made(Placement::Position(p), no_replies(), answers, 12) == seq![
                PlacementCall::IsMinimized,
            ] + call_if(!minimized, PlacementCall::IsMaximized) + call_if(
                minimized || maximized,
                PlacementCall::Restore(p.rect),
            ) + seq![moving_call(p, true, true)] + call_if(
                p.has_pending_dpi_adjustment,
                moving_call(p, true, true),
            ) + showing_calls(p)
        }),
{
    reveal_with_fuel(calls_made, 9);
}

/// Whatever the system answers, a window in a fullscreen that is not maximized
/// is restored if it is maximized, then moved to its rect, a second time where
/// its DPI is off, then shown or hidden.
pub proof fn law_fullscreen_window_is_put_in_its_place(
    p: Positioning,
    answers: spec_fn(PlacementStep) -> bool,
)
    requires
        p.state matches WindowState::Fullscreen(fullscreen) && !fullscreen.maximized,
        !p.keeps_own_frame,
    ensures
        calls_made(Placement::Position(p), no_replies(), answers, 12) == seq![
            PlacementCall::IsMaximized,
        ] + call_if(
            answers(PlacementStep::MaximizedAtFirst),
            PlacementCall::Restore(p.rect),
        ) + seq![moving_call(p, true, true)] + call_if(
            p.has_pending_dpi_adjustment,
            moving_call(p, true, true),
        ) + showing_calls(p),
{
    reveal_with_fuel(calls_made, 9);
}

/// Whatever the system answers, a window in a maximized fullscreen is maximized
/// unless it is already, where it can be, and its place in the stack set; where
/// it cannot be, it is moved to its rect instead. Then it is shown or hidden.
pub proof fn law_maximized_fullscreen_window_is_maximized(
    p: Positioning,
    answers: spec_fn(PlacementStep) -> bool,
)
    requires
        p.state matches WindowState::Fullscreen(fullscreen) && fullscreen.maximized,
        !p.keeps_own_frame,
    ensures
        calls_made(Placement::Position(p), no_replies(), answers, 12) == seq![
            PlacementCall::HasMaximizeBox,
        ] + (if answers(PlacementStep::MaximizeBox) {
            seq![PlacementCall::IsMaximized] + call_if(
                !answers(PlacementStep::Maximized),
                PlacementCall::Maximize,
            ) + seq![moving_call(p, true, false)]
        } else {
            seq![moving_call(p, true, true)] + call_if(
                p.has_pending_dpi_adjustment,
                moving_call(p, true, true),
            )
        }) + showing_calls(p),
{
    reveal_with_fuel(calls_made, 9);
}

/// Whatever the system answers, a fullscreen window that has taken its whole
/// monitor by itself is only given its place in the stack, and shown or hidden.
pub proof fn law_window_over_its_monitor_is_only_restacked(
    p: Positioning,
    answers: spec_fn(PlacementStep) -> bool,
)
    requires
        p.state is Fullscreen,
        p.keeps_own_frame,
    ensures
        ({
            let fullscreen = p.state->Fullscreen_0;
            calls_made(Placement::Position(p), no_replies(), answers, 12) == call_if(
                fullscreen.maximized,
                PlacementCall::HasMaximizeBox,
            ) + seq![moving_call(p, false, false)] + call_if(
                p.has_pending_dpi_adjustment && !(fullscreen.maximized && answers(
                    PlacementStep::MaximizeBox,
                )),
                moving_call(p, false, false),
            ) + showing_calls(p)
        }),
{
    reveal_with_fuel(calls_made, 9);
}

/// Whatever the system answers, a window that the window manager holds minimized
/// is minimized unless it is already, then shown or hidden.
pub proof fn law_minimized_window_is_minimized(
    p: Positioning,
    answers: spec_fn(PlacementStep) -> bool,
)
    requires
        p.state is Minimized,
    ensures
        calls_made(Placement::Position(p), no_replies(), answers, 12) == seq![
            PlacementCall::IsMinimized,
        ] + call_if(!answers(PlacementStep::Minimized), PlacementCall::Minimize) + showing_calls(p),
{
    reveal_with_fuel(calls_made, 9);
}

/// A window that is given a frame or a size gets just that, and one that is left
/// alone nothing.
pub proof fn law_single_placements_are_single_calls(
    rect: Rect,
    width: i32,
    height: i32,
    answers: spec_fn(PlacementStep) -> bool,
)
    ensures
        calls_made(Placement::SetFrame(rect), no_replies(), answers, 12) == seq![
            PlacementCall::SetFrame(rect),
        ],
        calls_made(Placement::Resize { width, height }, no_replies(), answers, 12) == seq![
            PlacementCall::Resize { width, height },
        ],
        calls_made(Placement::Untouched, no_replies(), answers, 12).len() == 0,
{
    reveal_with_fuel(calls_made, 3);
}

/// Once the system has answered that a tiling or floating window is minimized, or
/// that it is maximized, the next call restores it to its rect, and it is
/// neither moved nor done with before that was answered.
pub proof fn law_window_is_restored_before_it_is_moved(p: Positioning, replies: PlacementReplies)
    requires
        p.state is Tiling || p.state is Floating,
        !p.keeps_own_frame,
        ({
            ||| replies.minimized_at_first == Outcome::Answered(true)
            ||| replies.minimized_at_first == Outcome::Answered(false)
                && replies.maximized_at_first == Outcome::Answered(true)
        }),
    ensures
        ({
            let action = placement_action(Placement::Position(p), replies);
            &&& replies.restore is Pending ==> action == PlacementAction::Call(
                PlacementStep::Restore,
                PlacementCall::Restore(p.rect),
            )
            &&& replies.restore is Failed ==> action == PlacementAction::GiveUp
            &&& action matches PlacementAction::Call(_, PlacementCall::SetWindowPos { .. })
                ==> replies.restore is Answered
            &&& action is Done ==> replies.restore is Answered
        }),
{
}

/// A window goes where the layout has it: it is put away in a corner where it is
/// to be hidden there; otherwise it is only resized while it is dragged, given
/// its frame on macOS, positioned on Windows, and left alone elsewhere.
pub proof fn law_window_goes_where_the_layout_has_it(
    state: WmState,
    c: Container,
    w: Window,
    rect: Rect,
    corner: HideCorner,
    z_order: WindowZOrder,
    is_visible: bool,
    config: UserConfig,
)
    requires
        c.window == Some(w),
        w.placement == Ok::<Rect, String>(rect),
        is_visible || config.general.hide_method != HideMethod::PlaceInCorner,
    ensures
        ({
            let placement = placement_of(state, c, corner, z_order, is_visible, config);
            &&& w.has_active_drag && fits(rect.right - rect.left) && fits(rect.bottom - rect.top)
                ==> {
                &&& placement matches Ok(Placement::Resize { width, height })
                &&& width == rect.right - rect.left
                &&& height == rect.bottom - rect.top
            }
            &&& !w.has_active_drag && state.os == TargetOs::MacOs ==> {
                &&& placement matches Ok(Placement::SetFrame(frame))
                &&& frame == rect
            }
            &&& !w.has_active_drag && state.os == TargetOs::Windows ==> {
                &&& placement matches Ok(Placement::Position(p))
                &&& p.rect == rect
                &&& p.state == w.state
                &&& p.z_order == z_order
                &&& p.is_visible == is_visible
                &&& p.hide_method == config.general.hide_method
                &&& p.has_pending_dpi_adjustment == w.has_pending_dpi_adjustment
                &&& p.keeps_own_frame == state.keeps_own_frame(c)
            }
            &&& !w.has_active_drag && state.os == TargetOs::Other ==> {
                placement matches Ok(Placement::Untouched)
            }
        }),
{
}

/// A window that is hidden by being put away lies with all but a pixel of its
/// width beside the working area of its monitor and all but a pixel of its
/// height below it, at the size that it has. Whether it is dragged, and where
/// the layout has it, makes no difference, nor does the system.
pub proof fn law_hidden_window_is_put_away(
    state: WmState,
    c: Container,
    w: Window,
    m: Monitor,
    corner: HideCorner,
    z_order: WindowZOrder,
    config: UserConfig,
)
    requires
        c.window == Some(w),
        w.placement is Ok,
        state.monitor_of(c) == Some(m),
        config.general.hide_method == HideMethod::PlaceInCorner,
        placement_fits(state, c, corner, false, config),
    ensures
        ({
            let frame = w.native_properties.frame;
            &&& placement_of(state, c, corner, z_order, false, config) matches Ok(
                Placement::SetFrame(put),
            )
            &&& put.right - put.left == frame.right - frame.left
            &&& put.bottom - put.top == frame.bottom - frame.top
            &&& put.top == m.working_area.bottom - 1
            &&& corner == HideCorner::BottomLeft ==> put.right == m.working_area.left + 1
            &&& corner == HideCorner::BottomRight ==> put.left == m.working_area.right - 1
        }),
{
}

/// A window whose rect cannot be worked out is not placed, for just that reason,
/// whatever else holds of it; and one that is on no monitor is not put away.
pub proof fn law_unplaceable_window_says_why(
    state: WmState,
    c: Container,
    w: Window,
    corner: HideCorner,
    z_order: WindowZOrder,
    is_visible: bool,
    config: UserConfig,
)
    requires
        c.window == Some(w),
    ensures
        ({
            let placement = placement_of(state, c, corner, z_order, is_visible, config);
            &&& w.placement matches Err(reason) ==> placement == Err::<Placement, PlacementError>(
                PlacementError::NoRect(reason),
            )
            &&& w.placement is Ok && config.general.hide_method == HideMethod::PlaceInCorner
                && !is_visible && state.monitor_of(c) is None ==> placement == Err::<
                Placement,
                PlacementError,
            >(PlacementError::NoMonitor)
        }),
{
}

/// Windows of ordinary size on monitors of ordinary size can always be placed.
pub proof fn law_ordinary_windows_can_be_placed(
    state: WmState,
    c: Container,
    corner: HideCorner,
    is_visible: bool,
    config: UserConfig,
)
    requires
        state.monitor_of(c) matches Some(m) ==> is_of_ordinary_size(m.bounds) && small(
            m.working_area,
        ),
        c.window matches Some(w) ==> small(w.native_properties.frame) && (w.placement matches Ok(
            rect,
        ) ==> small(rect)),
    ensures
        placement_fits(state, c, corner, is_visible, config),
{
}

/// Whether every edge of a rect lies within five hundred million pixels.
pub open spec fn small(rect: Rect) -> bool {
    &&& -500_000_000 <= rect.left <= 500_000_000
    &&& -500_000_000 <= rect.top <= 500_000_000
    &&& -500_000_000 <= rect.right <= 500_000_000
    &&& -500_000_000 <= rect.bottom <= 500_000_000
}

} // verus!
