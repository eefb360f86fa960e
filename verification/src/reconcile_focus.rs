//! Recovery for keyboard focus stranded on the Windows shell.
//!
//! When a taskbar flyout is dismissed, Windows either drops the foreground
//! entirely or leaves it on the flyout's now-cloaked host window. No event
//! tells of that, so focus sits nowhere until the user clicks a real window.
//! This is polled for instead.

use vstd::prelude::*;

use crate::config::UserConfig;
use crate::probe::{is_filled, reading_or, Probe, Query, Reading};
use crate::rect::{fits, is_in_range, Rect};
use crate::state::{Container, DisplayState, TargetOs, Window, WindowId, WmState};
use crate::text::{
    is_same, is_same_ignoring_case, law_case_is_all_that_is_ignored, same_letter, without_case,
};

verus! {

/// Number of consecutive polls that must observe stranded focus before it is
/// restored. Debouncing avoids racing the brief foreground gaps that occur
/// during normal window activation.
pub const STRANDED_FOCUS_TICKS_BEFORE_RESTORE: u32 = 2;

/// Restores attempted for one stranded stretch before giving up.
///
/// When the shell refuses the foreground it keeps refusing until the user
/// interacts, so retrying forever cannot recover focus.
pub const STRANDED_FOCUS_MAX_ATTEMPTS: u32 = 3;

/// Window class of the popup the shell draws its menus into.
pub const SHELL_POPUP_WINDOW_CLASS: &'static str = "Xaml_WindowedPopupClass";

/// How much taller than the taskbar a popup must be to be a menu.
///
/// The shell draws its tooltips into the same window class as its menus, owned
/// by the same taskbar. Size is the one thing that separates them. Comparing
/// against the taskbar rather than against a pixel count keeps that true
/// whatever the display scaling.
pub const MENU_POPUP_MIN_TASKBAR_HEIGHTS: i32 = 2;

/// What is known of a window.
#[derive(Debug)]
pub struct WindowReadings {
    pub is_valid: Reading<bool>,
    pub is_visible: Reading<bool>,
    pub is_minimized: Reading<bool>,
    pub is_desktop: Reading<bool>,
    pub class_name: Reading<String>,
}

impl WindowReadings {
    /// Nothing is known yet.
    pub open spec fn unread() -> WindowReadings {
        WindowReadings {
            is_valid: Reading::Unread,
            is_visible: Reading::Unread,
            is_minimized: Reading::Unread,
            is_desktop: Reading::Unread,
            class_name: Reading::Unread,
        }
    }

    /// Nothing is known yet.
    pub fn new() -> (r: WindowReadings)
        ensures
            r == WindowReadings::unread(),
    {
        WindowReadings {
            is_valid: Reading::Unread,
            is_visible: Reading::Unread,
            is_minimized: Reading::Unread,
            is_desktop: Reading::Unread,
            class_name: Reading::Unread,
        }
    }
}

/// A window that can be seen, as far as the system could tell.
#[derive(Debug)]
pub struct VisibleWindow {
    pub class_name: Option<String>,
    pub process_name: Option<String>,
    pub frame: Option<Rect>,
    /// Frame of the window that owns this one, if one does.
    pub owner_frame: Option<Rect>,
}

/// Whether a window class is that of a taskbar.
pub open spec fn is_taskbar_class(class_name: Seq<char>) -> bool {
    class_name == "Shell_TrayWnd"@ || class_name == "Shell_SecondaryTrayWnd"@
}

/// Whether a window class is that of a taskbar.
pub fn is_taskbar_window_class(class_name: &str) -> (r: bool)
    ensures
        r == is_taskbar_class(class_name@),
{
    is_same(class_name, "Shell_TrayWnd") || is_same(class_name, "Shell_SecondaryTrayWnd")
}

/// Whether a window is of a taskbar's class.
pub open spec fn of_taskbar_class(window: WindowId, class_name: Reading<String>) -> Probe {
    match class_name {
        Reading::Unread => Probe::Ask(Query::ClassName(window)),
        Reading::Failed => Probe::Known(false),
        Reading::Read(name) => Probe::Known(is_taskbar_class(name@)),
    }
}

/// Whether a window is the desktop or the taskbar, or there is none.
pub open spec fn shell_target(window: WindowId, readings: WindowReadings) -> Probe {
    Probe::Known(window == 0).or_else(
        reading_or(readings.is_desktop, false, Query::IsDesktop(window)),
    ).or_else(of_taskbar_class(window, readings.class_name))
}

/// Whether a focus event target is the desktop or the taskbar frame.
pub fn is_shell_focus_target(window: WindowId, readings: &WindowReadings) -> (r: Probe)
    ensures
        r == shell_target(window, *readings),
{
    let of_taskbar_class = match &readings.class_name {
        Reading::Unread => Probe::Ask(Query::ClassName(window)),
        Reading::Failed => Probe::Known(false),
        Reading::Read(name) => Probe::Known(is_taskbar_window_class(name.as_str())),
    };
    Probe::Known(window == 0).or(
        Probe::read_or(&readings.is_desktop, false, Query::IsDesktop(window)),
    ).or(of_taskbar_class)
}

/// Whether a window is part of the shell or cannot be seen.
pub open spec fn stranded_target(window: WindowId, readings: WindowReadings) -> Probe {
    shell_target(window, readings).or_else(
        reading_or(readings.is_visible, true, Query::IsVisible(window)).negated(),
    )
}

/// Whether keyboard focus currently sits somewhere the user cannot type.
///
/// This is deliberately wider than [`is_shell_focus_target`]: a dismissed
/// taskbar flyout can remain the foreground window while cloaked. An *open*
/// flyout is visible and uncloaked and never matches here.
pub fn is_stranded_focus_target(window: WindowId, readings: &WindowReadings) -> (r: Probe)
    ensures
        r == stranded_target(window, *readings),
{
    is_shell_focus_target(window, readings).or(
        Probe::read_or(&readings.is_visible, true, Query::IsVisible(window)).not(),
    )
}

/// Whether a popup is taller than the taskbar by enough to be a menu.
pub open spec fn is_menu_sized(popup_height: int, taskbar_height: int) -> bool {
    popup_height > taskbar_height * MENU_POPUP_MIN_TASKBAR_HEIGHTS
}

impl VisibleWindow {
    /// Whether the window is a popup of the shell's, whatever its size.
    pub open spec fn is_shell_popup(self) -> bool {
        &&& self.class_name matches Some(class) && class@ == SHELL_POPUP_WINDOW_CLASS@
        &&& self.process_name matches Some(process) && without_case(process@) == without_case(
            "explorer"@,
        )
    }

    /// Whether the window is large enough, against its owner, to be a menu.
    pub open spec fn menu_sized(self) -> bool {
        &&& self.frame matches Some(frame)
        &&& self.owner_frame matches Some(owner)
        &&& is_menu_sized(frame.spec_height(), owner.spec_height())
    }

    /// Whether the heights that are compared can be held in 32 bits.
    pub open spec fn heights_fit(self) -> bool {
        self.frame matches Some(frame) ==> (self.owner_frame matches Some(owner) ==> {
            &&& fits(frame.spec_height())
            &&& fits(owner.spec_height())
            &&& fits(owner.spec_height() * MENU_POPUP_MIN_TASKBAR_HEIGHTS)
        })
    }
}

/// Whether the heights that are compared can be held in 32 bits.
fn are_heights_in_range(popup: &VisibleWindow) -> (r: bool)
    ensures
        r == popup.heights_fit(),
{
    match (popup.frame, popup.owner_frame) {
        (Some(frame), Some(owner)) => is_in_range(frame.wide_height()) && is_in_range(
            owner.wide_height(),
        ) && is_in_range(owner.wide_height() * MENU_POPUP_MIN_TASKBAR_HEIGHTS as i64),
        _ => true,
    }
}

/// Whether a shell popup is large enough to be a menu rather than a tooltip.
///
/// Measured against the popup's owner, which for both is the taskbar. A popup
/// with no owner is not one of the shell's.
pub fn popup_is_menu_sized(popup: &VisibleWindow) -> (r: bool)
    requires
        popup.heights_fit(),
    ensures
        r == popup.menu_sized(),
{
    match (popup.frame, popup.owner_frame) {
        (Some(popup_frame), Some(owner_frame)) => popup_frame.height() > owner_frame.height()
            * MENU_POPUP_MIN_TASKBAR_HEIGHTS,
        _ => false,
    }
}

/// Whether one of the windows is a menu of the shell's.
pub open spec fn menu_among(windows: Seq<VisibleWindow>) -> bool {
    exists|i: int|
        0 <= i < windows.len() && (#[trigger] windows[i]).is_shell_popup()
            && windows[i].menu_sized()
}

/// Whether the heights of every popup of the shell's, up to the first menu, can
/// be compared.
pub open spec fn all_popups_fit(windows: Seq<VisibleWindow>) -> bool {
    forall|i: int|
        0 <= i < windows.len() && (#[trigger] windows[i]).is_shell_popup() && !menu_among(
            windows.take(i),
        ) ==> windows[i].heights_fit()
}

/// Whether the heights of every popup of the shell's that is known of, up to
/// the first menu, can be compared.
pub open spec fn popups_fit(windows: Reading<Vec<VisibleWindow>>) -> bool {
    windows matches Reading::Read(windows) ==> all_popups_fit(windows@)
}

/// Whether a window is a popup of the shell's, whatever its size.
fn is_popup_of_shell(window: &VisibleWindow) -> (r: bool)
    ensures
        r == window.is_shell_popup(),
{
    let of_popup_class = match &window.class_name {
        Some(class_name) => is_same(class_name.as_str(), SHELL_POPUP_WINDOW_CLASS),
        None => false,
    };
    let of_shell = match &window.process_name {
        Some(process_name) => is_same_ignoring_case(process_name.as_str(), "explorer"),
        None => false,
    };
    of_popup_class && of_shell
}

/// Whether the heights of every popup of the shell's that is known of, up to
/// the first menu, can be compared.
pub fn are_popups_in_range(windows: &Reading<Vec<VisibleWindow>>) -> (r: bool)
    ensures
        r == popups_fit(*windows),
{
    let windows = match windows {
        Reading::Read(windows) => windows,
        _ => return true,
    };
    let mut i: usize = 0;
    #[verifier::loop_isolation(false)]
    while i < windows.len()
        invariant
            i <= windows.len(),
            forall|j: int|
                0 <= j < i && (#[trigger] windows@[j]).is_shell_popup()
                    ==> windows@[j].heights_fit() && !windows@[j].menu_sized(),
        decreases windows.len() - i,
    {
        let window = &windows[i];
        assert(*window == windows@[i as int]);
        if is_popup_of_shell(window) {
            if !are_heights_in_range(window) {
                proof {
                    lemma_no_menu_before(windows@, i as int);
                }
                return false;
            }
            if popup_is_menu_sized(window) {
                assert forall|j: int|
                    0 <= j < windows@.len() && (#[trigger] windows@[j]).is_shell_popup()
                        && !menu_among(windows@.take(j)) implies windows@[j].heights_fit() by {
                    if j > i {
                        assert(windows@.take(j)[i as int].is_shell_popup());
                    }
                }
                return true;
            }
        }
        i += 1;
    }
    true
}

/// Where none of the windows before one is a menu, there is none among them.
proof fn lemma_no_menu_before(windows: Seq<VisibleWindow>, i: int)
    requires
        0 <= i <= windows.len(),
        forall|j: int|
            0 <= j < i && (#[trigger] windows[j]).is_shell_popup() ==> !windows[j].menu_sized(),
    ensures
        !menu_among(windows.take(i)),
{
    assert forall|j: int| 0 <= j < i implies !((#[trigger] windows.take(i)[j]).is_shell_popup()
        && windows.take(i)[j].menu_sized()) by {
        assert(windows.take(i)[j] == windows[j]);
    }
}

/// Whether the shell is showing a popup menu.
///
/// Restricted to the shell's own popups: any application built on the same
/// toolkit would otherwise be able to hold focus recovery off indefinitely.
pub open spec fn shell_menu_open(windows: Reading<Vec<VisibleWindow>>) -> Probe {
    match windows {
        Reading::Unread => Probe::Ask(Query::VisibleWindows),
        Reading::Failed => Probe::Known(false),
        Reading::Read(windows) => Probe::Known(menu_among(windows@)),
    }
}

/// Whether the shell is showing a popup menu.
///
/// The shell destroys these windows as its menus close, so this only holds
/// while one is on screen.
pub fn shell_popup_is_open(windows: &Reading<Vec<VisibleWindow>>) -> (r: Probe)
    requires
        popups_fit(*windows),
    ensures
        r == shell_menu_open(*windows),
{
    match windows {
        Reading::Unread => Probe::Ask(Query::VisibleWindows),
        Reading::Failed => Probe::Known(false),
        Reading::Read(windows) => Probe::Known(has_menu(windows)),
    }
}

/// Whether one of the windows is a menu of the shell's.
fn has_menu(windows: &Vec<VisibleWindow>) -> (r: bool)
    requires
        all_popups_fit(windows@),
    ensures
        r == menu_among(windows@),
{
    let mut i: usize = 0;
    while i < windows.len()
        invariant
            i <= windows.len(),
            all_popups_fit(windows@),
            forall|j: int|
                0 <= j < i ==> !((#[trigger] windows@[j]).is_shell_popup()
                    && windows@[j].menu_sized()),
        decreases windows.len() - i,
    {
        let window = &windows[i];
        proof {
            assert(*window == windows@[i as int]);
            lemma_no_menu_before(windows@, i as int);
        }
        if is_popup_of_shell(window) && popup_is_menu_sized(window) {
            return true;
        }
        i += 1;
    }
    false
}

/// What is known when focus is polled.
#[derive(Debug)]
pub struct FocusFacts {
    pub session_locked: Reading<bool>,
    pub menu_open: Reading<bool>,
    /// The window that the window manager holds to have focus.
    pub target: WindowReadings,
    pub foreground: Reading<WindowId>,
    /// The window that has the system's focus.
    pub current: WindowReadings,
    pub visible_windows: Reading<Vec<VisibleWindow>>,
}

impl FocusFacts {
    /// Nothing is known yet.
    pub fn new() -> (r: FocusFacts)
        ensures
            r == (FocusFacts {
                session_locked: Reading::Unread,
                menu_open: Reading::Unread,
                target: WindowReadings::unread(),
                foreground: Reading::Unread,
                current: WindowReadings::unread(),
                visible_windows: Reading::Unread,
            }),
    {
        FocusFacts {
            session_locked: Reading::Unread,
            menu_open: Reading::Unread,
            target: WindowReadings::new(),
            foreground: Reading::Unread,
            current: WindowReadings::new(),
            visible_windows: Reading::Unread,
        }
    }
}

/// The window that the window manager holds to have focus, if it is on screen
/// or about to be.
pub open spec fn shown_focused_window(state: WmState) -> Option<WindowId> {
    match state.find_focused() {
        Some(c) => match c.window {
            Some(w) => if w.display_state.visible() {
                Some(w.native)
            } else {
                None
            },
            None => None,
        },
        None => None,
    }
}

/// The window that the window manager holds to have focus, if it is on screen
/// or about to be.
pub fn find_shown_focused_window(state: &WmState) -> (r: Option<WindowId>)
    ensures
        r == shown_focused_window(*state),
{
    match state.focused_container() {
        Some(c) => match &c.window {
            Some(w) => if w.display_state.is_visible() {
                Some(w.native)
            } else {
                None
            },
            None => None,
        },
        None => None,
    }
}

/// Whether a window can be seen and is not minimized.
pub open spec fn in_sight(window: WindowId, readings: WindowReadings) -> Probe {
    reading_or(readings.is_visible, false, Query::IsVisible(window)).and_also(
        reading_or(readings.is_minimized, true, Query::IsMinimized(window)).negated(),
    )
}

/// Whether a window can be seen and is not minimized.
pub fn is_in_sight(window: WindowId, readings: &WindowReadings) -> (r: Probe)
    ensures
        r == in_sight(window, *readings),
{
    Probe::read_or(&readings.is_visible, false, Query::IsVisible(window)).and(
        Probe::read_or(&readings.is_minimized, true, Query::IsMinimized(window)).not(),
    )
}

/// Whether the system's focus is stranded away from `target`.
pub open spec fn stranded_away_from(target: WindowId, facts: FocusFacts) -> Probe {
    match facts.foreground {
        Reading::Unread => Probe::Ask(Query::Foreground),
        Reading::Failed => Probe::Known(false),
        Reading::Read(current) => Probe::Known(current != target).and_also(
            stranded_target(current, facts.current),
        ),
    }
}

/// Whether focus looks stranded: the window manager is at work, the session is
/// not locked, no menu is known to be open, there is a window in sight to return
/// focus to, and it is neither there nor anywhere else the user can type.
pub open spec fn looks_stranded(state: WmState, config: UserConfig, facts: FocusFacts) -> Probe {
    Probe::Known(!state.is_paused && config.general.restore_focus_on_shell).and_also(
        reading_or(facts.session_locked, false, Query::SessionLocked).negated(),
    ).and_also(reading_or(facts.menu_open, false, Query::MenuOpen).negated()).and_also(
        match shown_focused_window(state) {
            Some(target) => in_sight(target, facts.target).and_also(
                stranded_away_from(target, facts),
            ),
            None => Probe::Known(false),
        },
    )
}

/// Whether focus is stranded and is to be won back: it looks stranded, and the
/// shell is not showing a menu.
pub open spec fn focus_stranded(state: WmState, config: UserConfig, facts: FocusFacts) -> Probe {
    looks_stranded(state, config, facts).and_also(shell_menu_open(facts.visible_windows).negated())
}

/// Decides whether focus looks stranded.
fn is_focus_looking_stranded(state: &WmState, config: &UserConfig, facts: &FocusFacts) -> (r: Probe)
    ensures
        r == looks_stranded(*state, *config, *facts),
{
    // Only restore to a window the user can actually see. A hidden or
    // minimized target means there is nothing to return focus to.
    let stranded = match find_shown_focused_window(state) {
        Some(target) => {
            let stranded_away = match facts.foreground {
                Reading::Unread => Probe::Ask(Query::Foreground),
                Reading::Failed => Probe::Known(false),
                Reading::Read(current) => Probe::Known(current != target).and(
                    is_stranded_focus_target(current, &facts.current),
                ),
            };
            is_in_sight(target, &facts.target).and(stranded_away)
        },
        None => Probe::Known(false),
    };
    // A locked session has no user to hand focus back to. An open menu holds
    // the foreground on the window that owns it, which reads as stranded. A
    // question that fails counts as no obstacle, so that a broken check does
    // not disable recovery.
    Probe::Known(!state.is_paused && config.general.restore_focus_on_shell).and(
        Probe::read_or(&facts.session_locked, false, Query::SessionLocked).not(),
    ).and(Probe::read_or(&facts.menu_open, false, Query::MenuOpen).not()).and(stranded)
}

/// Decides whether focus is stranded and is to be won back.
fn is_focus_stranded(state: &WmState, config: &UserConfig, facts: &FocusFacts) -> (r: Probe)
    requires
        looks_stranded(*state, *config, *facts) == Probe::Known(true) ==> popups_fit(
            facts.visible_windows,
        ),
    ensures
        r == focus_stranded(*state, *config, *facts),
{
    // Enumerating windows comes last, once focus already looks stranded.
    match is_focus_looking_stranded(state, config, facts) {
        Probe::Known(true) => shell_popup_is_open(&facts.visible_windows).not(),
        other => other,
    }
}

/// Whether a poll can be answered without leaving the range of heights or of
/// counters: what it measures and counts up can be held in 32 bits.
pub open spec fn poll_fits(state: WmState, config: UserConfig, facts: FocusFacts) -> bool {
    state.os == TargetOs::Windows ==> {
        &&& looks_stranded(state, config, facts) == Probe::Known(true) ==> popups_fit(
            facts.visible_windows,
        )
        &&& focus_stranded(state, config, facts) == Probe::Known(true)
            ==> state.stranded_focus_ticks < u32::MAX
    }
}

/// Whether a poll can be answered without leaving the range of heights or of
/// counters.
pub fn is_poll_in_range(state: &WmState, config: &UserConfig, facts: &FocusFacts) -> (r: bool)
    ensures
        r == poll_fits(*state, *config, *facts),
{
    if state.os != TargetOs::Windows {
        return true;
    }
    match is_focus_looking_stranded(state, config, facts) {
        Probe::Known(true) => {
            are_popups_in_range(&facts.visible_windows) && (state.stranded_focus_ticks < u32::MAX
                || !matches!(
                shell_popup_is_open(&facts.visible_windows),
                Probe::Known(false)
            ))
        },
        _ => true,
    }
}

/// What to do about stranded focus.
#[derive(PartialEq, Eq, Structural, Clone, Copy, Debug)]
pub enum FocusRecovery {
    /// Ask the system, and decide again.
    Ask(Query),
    /// Nothing is to be done.
    Idle,
    /// Focus a window, and report what came of it.
    Restore(WindowId),
}

/// How often focus was seen stranded, and how often it was tried to win it
/// back.
pub struct Counters {
    pub ticks: int,
    pub attempts: int,
}

/// The counters once a poll has told whether focus is stranded, and whether
/// the poll tries to win it back.
pub open spec fn after_poll(before: Counters, stranded: bool) -> (Counters, bool) {
    if !stranded {
        (Counters { ticks: 0, attempts: 0 }, false)
    } else if before.ticks + 1 < STRANDED_FOCUS_TICKS_BEFORE_RESTORE {
        (Counters { ticks: before.ticks + 1, ..before }, false)
    } else if before.attempts >= STRANDED_FOCUS_MAX_ATTEMPTS {
        (Counters { ticks: 0, ..before }, false)
    } else {
        (Counters { ticks: 0, attempts: before.attempts + 1 }, true)
    }
}

/// The counters once it is known what came of an attempt.
pub open spec fn after_attempt(before: Counters, succeeded: bool) -> Counters {
    if succeeded {
        Counters { attempts: 0, ..before }
    } else {
        before
    }
}

impl WmState {
    /// How often focus was seen stranded, and how often it was tried to win it
    /// back.
    pub open spec fn counters(self) -> Counters {
        Counters {
            ticks: self.stranded_focus_ticks as int,
            attempts: self.stranded_focus_attempts as int,
        }
    }

    /// Whether the state is as `before` but for the counters.
    pub open spec fn differs_in_counters(self, before: WmState) -> bool {
        self == (WmState {
            stranded_focus_ticks: self.stranded_focus_ticks,
            stranded_focus_attempts: self.stranded_focus_attempts,
            ..before
        })
    }
}

/// Restores focus to the window manager's focused window when the system has
/// left keyboard focus stranded on the shell.
///
/// Anywhere but on Windows there is nothing to be done.
pub fn reconcile_stranded_focus(
    state: &mut WmState,
    config: &UserConfig,
    facts: &FocusFacts,
) -> (r: FocusRecovery)
    requires
        poll_fits(*old(state), *config, *facts),
    ensures
        final(state).differs_in_counters(*old(state)),
        old(state).os != TargetOs::Windows ==> r is Idle && *final(state) == *old(state),
        old(state).os == TargetOs::Windows ==> match focus_stranded(*old(state), *config, *facts) {
            Probe::Ask(query) => r == FocusRecovery::Ask(query) && *final(state) == *old(state),
            Probe::Known(stranded) => {
                let (counters, restores) = after_poll(old(state).counters(), stranded);
                &&& final(state).counters() == counters
                &&& r == if restores {
                    FocusRecovery::Restore(shown_focused_window(*old(state))->0)
                } else {
                    FocusRecovery::Idle
                }
            },
        },
{
    if state.os != TargetOs::Windows {
        return FocusRecovery::Idle;
    }
    match is_focus_stranded(state, config, facts) {
        Probe::Ask(query) => return FocusRecovery::Ask(query),
        Probe::Known(true) => {},
        Probe::Known(false) => {
            state.stranded_focus_ticks = 0;
            state.stranded_focus_attempts = 0;
            return FocusRecovery::Idle;
        },
    }
    let target: WindowId = match find_shown_focused_window(state) {
        Some(target) => target,
        None => return FocusRecovery::Idle,
    };
    state.stranded_focus_ticks = state.stranded_focus_ticks + 1;
    if state.stranded_focus_ticks < STRANDED_FOCUS_TICKS_BEFORE_RESTORE {
        return FocusRecovery::Idle;
    }
    state.stranded_focus_ticks = 0;

    // Stop once the shell has refused often enough to show it will keep
    // refusing. The counter is cleared as soon as focus lands anywhere real,
    // so a later stranding gets a fresh set of attempts.
    if state.stranded_focus_attempts >= STRANDED_FOCUS_MAX_ATTEMPTS {
        return FocusRecovery::Idle;
    }
    state.stranded_focus_attempts = state.stranded_focus_attempts + 1;
    FocusRecovery::Restore(target)
}

/// Takes note of what came of an attempt at winning back focus, and tells
/// whether that was the last one.
pub fn finish_focus_restore(state: &mut WmState, succeeded: bool) -> (gives_up: bool)
    ensures
        final(state).differs_in_counters(*old(state)),
        final(state).counters() == after_attempt(old(state).counters(), succeeded),
        gives_up == (!succeeded && old(state).stranded_focus_attempts
            >= STRANDED_FOCUS_MAX_ATTEMPTS),
{
    if succeeded {
        state.stranded_focus_attempts = 0;
        return false;
    }
    state.stranded_focus_attempts >= STRANDED_FOCUS_MAX_ATTEMPTS
}

/// While the window manager is paused, the session is locked or a menu is
/// open, focus never counts as stranded, whatever else is known.
pub proof fn law_focus_is_left_alone_while_something_holds_it(
    state: WmState,
    config: UserConfig,
    facts: FocusFacts,
)
    requires
        ({
            ||| state.is_paused
            ||| !config.general.restore_focus_on_shell
            ||| facts.session_locked == Reading::Read(true)
            ||| facts.menu_open == Reading::Read(true)
            ||| facts.visible_windows matches Reading::Read(windows) && menu_among(windows@)
        }),
    ensures
        focus_stranded(state, config, facts) != Probe::Known(true),
{
}

/// Focus counts as stranded only where there is a window in sight to return it
/// to, and the system's focus is elsewhere.
pub proof fn law_focus_returns_only_to_a_window_in_sight(
    state: WmState,
    config: UserConfig,
    facts: FocusFacts,
)
    requires
        focus_stranded(state, config, facts) == Probe::Known(true),
    ensures
        shown_focused_window(state) matches Some(target) && {
            &&& facts.target.is_visible == Reading::Read(true)
            &&& facts.target.is_minimized == Reading::Read(false)
            &&& facts.foreground matches Reading::Read(current) && current != target
        },
{
}

/// A window that can be seen, and is neither the desktop nor a taskbar, keeps
/// its focus: an open flyout among them.
pub proof fn law_visible_window_keeps_focus(window: WindowId, readings: WindowReadings)
    requires
        window != 0,
        readings.is_visible == Reading::Read(true),
        readings.is_desktop != Reading::Read(true),
        readings.class_name matches Reading::Read(name) ==> !is_taskbar_class(name@),
    ensures
        stranded_target(window, readings) != Probe::Known(true),
{
}

/// Every question that is asked is one whose answer is not known, so that
/// answering it brings the decision closer.
pub proof fn law_only_open_questions_are_asked(
    state: WmState,
    config: UserConfig,
    facts: FocusFacts,
)
    ensures
        focus_stranded(state, config, facts) matches Probe::Ask(query) ==> match query {
            Query::SessionLocked => facts.session_locked is Unread,
            Query::MenuOpen => facts.menu_open is Unread,
            Query::Foreground => facts.foreground is Unread,
            Query::VisibleWindows => facts.visible_windows is Unread,
            Query::IsMinimized(window) => {
                &&& Some(window) == shown_focused_window(state)
                &&& facts.target.is_minimized is Unread
            },
            Query::IsVisible(window) => {
                ||| Some(window) == shown_focused_window(state)
                    && facts.target.is_visible is Unread
                ||| facts.foreground == Reading::Read(window) && facts.current.is_visible is Unread
            },
            Query::IsDesktop(window) => {
                &&& facts.foreground == Reading::Read(window)
                &&& facts.current.is_desktop is Unread
            },
            Query::ClassName(window) => {
                &&& facts.foreground == Reading::Read(window)
                &&& facts.current.class_name is Unread
            },
            Query::IsValid(_) => false,
        },
{
}

/// Counters in the range that polling keeps them in.
pub open spec fn counters_in_range(c: Counters) -> bool {
    &&& 0 <= c.ticks < STRANDED_FOCUS_TICKS_BEFORE_RESTORE
    &&& 0 <= c.attempts <= STRANDED_FOCUS_MAX_ATTEMPTS
}

/// Polling keeps the counters in range, and so does reporting an attempt.
pub proof fn law_counters_stay_in_range(before: Counters, stranded: bool, succeeded: bool)
    requires
        counters_in_range(before),
    ensures
        counters_in_range(after_poll(before, stranded).0),
        counters_in_range(after_attempt(before, succeeded)),
{
}

/// The counters after some polls, each of which has told whether focus is
/// stranded, where every attempt fails; and how many attempts there were.
pub open spec fn after_polls(start: Counters, polls: Seq<bool>) -> (Counters, int)
    decreases polls.len(),
{
    if polls.len() == 0 {
        (start, 0)
    } else {
        let (before, attempts) = after_polls(start, polls.drop_last());
        let (after, attempted) = after_poll(before, polls.last());
        (
            after_attempt(after, false),
            if attempted {
                attempts + 1
            } else {
                attempts
            },
        )
    }
}

/// However long focus stays stranded, it is tried to win it back every second
/// poll, and no more than the allowed number of times.
pub proof fn law_attempts_are_bounded(polls: Seq<bool>)
    requires
        forall|i: int| 0 <= i < polls.len() ==> #[trigger] polls[i],
    ensures
        ({
            let (counters, attempts) = after_polls(Counters { ticks: 0, attempts: 0 }, polls);
            &&& attempts == if polls.len() / 2 <= STRANDED_FOCUS_MAX_ATTEMPTS {
                (polls.len() / 2) as int
            } else {
                STRANDED_FOCUS_MAX_ATTEMPTS as int
            }
            &&& counters.ticks == polls.len() % 2
            &&& counters.attempts == attempts
        }),
    decreases polls.len(),
{
    if polls.len() > 0 {
        let rest = polls.drop_last();
        assert forall|i: int| 0 <= i < rest.len() implies #[trigger] rest[i] by {
            assert(polls[i]);
        }
        law_attempts_are_bounded(rest);
        assert(polls[polls.len() - 1]);
    }
}

/// One poll that does not see focus stranded starts everything afresh.
pub proof fn law_real_focus_resets_the_counters(start: Counters, polls: Seq<bool>)
    requires
        polls.len() > 0,
        !polls.last(),
    ensures
        after_polls(start, polls).0 == (Counters { ticks: 0, attempts: 0 }),
{
}

/// Focus that is seen stranded by a single poll is not acted upon.
pub proof fn law_one_glimpse_is_not_enough(start: Counters)
    requires
        counters_in_range(start),
    ensures
        ({
            let (fresh, _) = after_poll(start, false);
            let (_, attempted) = after_poll(fresh, true);
            !attempted
        }),
{
}

/// What separates menus from tooltips holds at any display scaling.
pub proof fn law_menu_size_survives_scaling(popup_height: int, taskbar_height: int, scale: int)
    by (nonlinear_arith)
    requires
        scale > 0,
    ensures
        is_menu_sized(popup_height * scale, taskbar_height * scale) == is_menu_sized(
            popup_height,
            taskbar_height,
        ),
{
}

/// The class of the shell's popups is not that of a taskbar.
pub proof fn law_shell_popup_is_not_a_taskbar()
    ensures
        !is_taskbar_class(SHELL_POPUP_WINDOW_CLASS@),
{
    reveal_strlit("Xaml_WindowedPopupClass");
    reveal_strlit("Shell_TrayWnd");
    reveal_strlit("Shell_SecondaryTrayWnd");
    assert(SHELL_POPUP_WINDOW_CLASS@[0] == 'X');
    assert("Shell_TrayWnd"@[0] == 'S');
    assert("Shell_SecondaryTrayWnd"@[0] == 'S');
}

/// Whether a class name is one of the two that taskbars have.
pub open spec fn names_a_taskbar(class_name: Reading<String>) -> bool {
    class_name matches Reading::Read(name) && (name@ == "Shell_TrayWnd"@ || name@
        == "Shell_SecondaryTrayWnd"@)
}

/// Whether nothing is left to ask of a window's place on the shell.
pub open spec fn shell_readings_known(readings: WindowReadings) -> bool {
    !(readings.is_desktop is Unread) && !(readings.class_name is Unread)
}

/// Whether nothing is left to ask for a poll.
pub open spec fn poll_known(facts: FocusFacts) -> bool {
    &&& !(facts.session_locked is Unread)
    &&& !(facts.menu_open is Unread)
    &&& !(facts.target.is_visible is Unread)
    &&& !(facts.target.is_minimized is Unread)
    &&& !(facts.foreground is Unread)
    &&& shell_readings_known(facts.current)
    &&& !(facts.current.is_visible is Unread)
    &&& !(facts.visible_windows is Unread)
}

/// Whether a window is a menu of the shell's: a popup of its class, of the
/// process `explorer` in whatever case, more than twice as tall as its owner.
pub open spec fn is_open_shell_menu(window: VisibleWindow) -> bool {
    &&& window.class_name matches Some(class) && class@ == "Xaml_WindowedPopupClass"@
    &&& window.process_name matches Some(process) && same_but_for_case(process@, "explorer"@)
    &&& window.frame matches Some(frame) && (window.owner_frame matches Some(owner) && frame.bottom
        - frame.top > 2 * (owner.bottom - owner.top))
}

/// Whether two texts hold the same letters, in whatever case.
pub open spec fn same_but_for_case(a: Seq<char>, b: Seq<char>) -> bool {
    &&& a.len() == b.len()
    &&& forall|i: int| 0 <= i < a.len() ==> same_letter(#[trigger] a[i], b[i])
}

/// Once everything is known, the desktop and a taskbar of either kind are part
/// of the shell, as is no window at all, and nothing else is. What the system
/// could not tell does not make a window part of it.
pub proof fn law_shell_is_the_desktop_and_the_taskbars(window: WindowId, readings: WindowReadings)
    requires
        shell_readings_known(readings),
    ensures
        shell_target(window, readings) == Probe::Known(
            window == 0 || readings.is_desktop == Reading::Read(true) || names_a_taskbar(
                readings.class_name,
            ),
        ),
{
}

/// Once everything is known, focus is where the user cannot type just if it is
/// on the shell or on a window of any class that cannot be seen.
pub proof fn law_focus_out_of_sight_is_stranded(window: WindowId, readings: WindowReadings)
    requires
        shell_readings_known(readings),
        !(readings.is_visible is Unread),
    ensures
        stranded_target(window, readings) == Probe::Known(
            window == 0 || readings.is_desktop == Reading::Read(true) || names_a_taskbar(
                readings.class_name,
            ) || readings.is_visible == Reading::Read(false),
        ),
{
}

/// Once everything is known, the shell is showing a menu just if one of the
/// windows that can be seen is one.
pub proof fn law_shell_menus_are_recognised(windows: Reading<Vec<VisibleWindow>>)
    requires
        !(windows is Unread),
    ensures
        shell_menu_open(windows) == Probe::Known(
            windows matches Reading::Read(windows) && exists|i: int|
                0 <= i < windows@.len() && is_open_shell_menu(#[trigger] windows@[i]),
        ),
{
    if let Reading::Read(listed) = windows {
        let all = listed@;
        assert forall|i: int| 0 <= i < all.len() implies is_open_shell_menu(#[trigger] all[i]) == (
        all[i].is_shell_popup() && all[i].menu_sized()) by {
            if let Some(process) = all[i].process_name {
                law_case_is_all_that_is_ignored(process@, "explorer"@);
            }
        }
        if menu_among(all) {
            let i = choose|i: int|
                0 <= i < all.len() && (#[trigger] all[i]).is_shell_popup() && all[i].menu_sized();
            assert(is_open_shell_menu(all[i]));
        }
        if exists|i: int| 0 <= i < all.len() && is_open_shell_menu(#[trigger] all[i]) {
            let i = choose|i: int| 0 <= i < all.len() && is_open_shell_menu(#[trigger] all[i]);
            assert(all[i].is_shell_popup() && all[i].menu_sized());
        }
    }
}

/// Once everything is known, focus counts as stranded just if
///  * the window manager is not paused and is to win focus back,
///  * the session is not known to be locked, nor a menu to be open, of the
///    system's or of the shell's,
///  * the window that should have focus is shown or about to be, can be seen and
///    is not minimized, and
///  * the system's focus is on no window, on the desktop, on a taskbar or on a
///    window of any class that cannot be seen, and not on that window.
pub proof fn law_stranded_focus_is_recognised(
    state: WmState,
    config: UserConfig,
    facts: FocusFacts,
    focused: Container,
    w: Window,
)
    requires
        poll_known(facts),
        state.find_focused() == Some(focused),
        focused.window == Some(w),
    ensures
        focus_stranded(state, config, facts) == Probe::Known(
            {
                &&& !state.is_paused
                &&& config.general.restore_focus_on_shell
                &&& facts.session_locked != Reading::Read(true)
                &&& facts.menu_open != Reading::Read(true)
                &&& !(facts.visible_windows matches Reading::Read(windows) && exists|i: int|
                    0 <= i < windows@.len() && is_open_shell_menu(#[trigger] windows@[i]))
                &&& w.display_state == DisplayState::Shown || w.display_state
                    == DisplayState::Showing
                &&& facts.target.is_visible == Reading::Read(true)
                &&& facts.target.is_minimized == Reading::Read(false)
                &&& facts.foreground matches Reading::Read(current) && {
                    &&& current != w.native
                    &&& {
                        ||| current == 0
                        ||| facts.current.is_desktop == Reading::Read(true)
                        ||| names_a_taskbar(facts.current.class_name)
                        ||| facts.current.is_visible == Reading::Read(false)
                    }
                }
            },
        ),
        focus_stranded(state, config, facts) == Probe::Known(true) ==> shown_focused_window(state)
            == Some(w.native),
{
    law_shell_menus_are_recognised(facts.visible_windows);
    if let Reading::Read(current) = facts.foreground {
        law_focus_out_of_sight_is_stranded(current, facts.current);
    }
}

/// Where nothing has focus, or what has it is no window, there is nothing to
/// return focus to.
pub proof fn law_nothing_is_stranded_without_a_focused_window(
    state: WmState,
    config: UserConfig,
    facts: FocusFacts,
)
    requires
        poll_known(facts),
        state.find_focused() matches Some(focused) ==> focused.window is None,
    ensures
        focus_stranded(state, config, facts) == Probe::Known(false),
{
}

/// An attempt that has won focus back leaves a fresh set of attempts, and one
/// that has not leaves everything as it was. Every second poll in a row that
/// sees focus stranded makes an attempt as long as there were fewer than three,
/// and then starts counting polls anew.
pub proof fn law_polls_and_attempts_are_counted(ticks: int, attempts: int)
    requires
        0 <= ticks <= 1,
        0 <= attempts <= 3,
    ensures
        ({
            let before = Counters { ticks, attempts };
            &&& after_attempt(before, true) == (Counters { ticks, attempts: 0 })
            &&& after_attempt(before, false) == before
            &&& after_poll(before, false) == (Counters { ticks: 0, attempts: 0 }, false)
            &&& ticks == 0 ==> after_poll(before, true) == (
                Counters { ticks: 1, attempts },
                false,
            )
            &&& ticks == 1 && attempts < 3 ==> after_poll(before, true) == (
                Counters { ticks: 0, attempts: attempts + 1 },
                true,
            )
            &&& ticks == 1 && attempts == 3 ==> after_poll(before, true) == (
                Counters { ticks: 0, attempts: 3 },
                false,
            )
        }),
{
}

impl WindowReadings {
    /// Whether more may be known of a window than before, and nothing else.
    pub open spec fn is_filled(self, after: WindowReadings) -> bool {
        &&& is_filled(self.is_valid, after.is_valid)
        &&& is_filled(self.is_visible, after.is_visible)
        &&& is_filled(self.is_minimized, after.is_minimized)
        &&& is_filled(self.is_desktop, after.is_desktop)
        &&& is_filled(self.class_name, after.class_name)
    }
}

impl FocusFacts {
    /// Whether more may be known than before, and nothing else.
    pub open spec fn is_filled(self, after: FocusFacts) -> bool {
        &&& is_filled(self.session_locked, after.session_locked)
        &&& is_filled(self.menu_open, after.menu_open)
        &&& self.target.is_filled(after.target)
        &&& is_filled(self.foreground, after.foreground)
        &&& self.current.is_filled(after.current)
        &&& is_filled(self.visible_windows, after.visible_windows)
    }
}

/// What is decided before everything is known stands, whatever else becomes
/// known: nothing is decided on what was not asked for.
pub proof fn law_early_decisions_stand(
    state: WmState,
    config: UserConfig,
    facts: FocusFacts,
    more: FocusFacts,
)
    requires
        facts.is_filled(more),
        focus_stranded(state, config, facts) is Known,
    ensures
        focus_stranded(state, config, more) == focus_stranded(state, config, facts),
{
}

/// What a window is taken for before everything is known of it stands, whatever
/// else becomes known.
pub proof fn law_early_judgements_of_a_window_stand(
    window: WindowId,
    readings: WindowReadings,
    more: WindowReadings,
)
    requires
        readings.is_filled(more),
    ensures
        shell_target(window, readings) is Known ==> shell_target(window, more) == shell_target(
            window,
            readings,
        ),
        stranded_target(window, readings) is Known ==> stranded_target(window, more)
            == stranded_target(window, readings),
{
}

/// The window that focus returns to is the one that the window manager holds to
/// have it, if that is shown or about to be.
pub proof fn law_focus_returns_to_the_focused_window(state: WmState, focused: Container, w: Window)
    requires
        state.find_focused() == Some(focused),
        focused.window == Some(w),
    ensures
        shown_focused_window(state) == if w.display_state == DisplayState::Shown
            || w.display_state == DisplayState::Showing {
            Some(w.native)
        } else {
            None
        },
{
}

/// Popups of up to a thousand million pixels can be measured, and a poll that
/// measures no others can be answered as long as the counters are in range.
pub proof fn law_ordinary_popups_can_be_measured(
    state: WmState,
    config: UserConfig,
    facts: FocusFacts,
)
    requires
        state.stranded_focus_ticks <= 1,
        facts.visible_windows matches Reading::Read(windows) ==> forall|i: int|
            0 <= i < windows@.len() ==> {
                &&& (#[trigger] windows@[i]).frame matches Some(frame) ==> -1_000_000_000
                    <= frame.bottom - frame.top <= 1_000_000_000
                &&& windows@[i].owner_frame matches Some(owner) ==> -1_000_000_000 <= owner.bottom
                    - owner.top <= 1_000_000_000
            },
    ensures
        poll_fits(state, config, facts),
{
}

} // verus!
