use std::collections::HashSet;

use wm::native_window_properties::NativeWindowProperties;
use wm::probe::Reading;
use wm::reconcile_taskbar::{
    are_suspects_in_range, examine_window, has_taskbar_above, next_remark_action,
    reconcile_stranded_taskbar, window_examined, RemarkAction, TaskbarRecovery,
    MAX_WINDOWS_ABOVE,
};
use wm::rect::Rect;
use wm::reposition::Outcome;
use wm::state::{
    Container, ContainerId, DisplayState, FullscreenStateConfig, Monitor, PendingSync, TargetOs,
    Window, WindowState, WmState,
};

fn windows(entries: &[(&str, bool)]) -> impl Iterator<Item = (String, bool)> {
    entries
        .iter()
        .map(|(class_name, is_visible)| ((*class_name).to_string(), *is_visible))
        .collect::<Vec<_>>()
        .into_iter()
}

#[test]
fn a_taskbar_over_the_window_is_found() {
    assert!(has_taskbar_above(windows(&[
        ("Chrome_WidgetWin_1", true),
        ("Shell_TrayWnd", true),
    ])));

    assert!(has_taskbar_above(windows(&[("Shell_SecondaryTrayWnd", true)])));
}

#[test]
fn nothing_over_the_window_is_not_a_stranded_taskbar() {
    assert!(!has_taskbar_above(windows(&[])));
    assert!(!has_taskbar_above(windows(&[
        ("Chrome_WidgetWin_1", true),
        ("Progman", true),
    ])));
}

#[test]
fn a_hidden_taskbar_is_covering_nothing() {
    assert!(!has_taskbar_above(windows(&[("Shell_TrayWnd", false)])));
}

#[test]
fn the_walk_gives_up_rather_than_following_a_shifting_z_order() {
    // Stands in for a z-order being reordered while it is walked, which would
    // otherwise never reach the top of the stack.
    let endless = std::iter::repeat(("Chrome_WidgetWin_1".to_string(), true));
    assert!(!has_taskbar_above(endless));

    // The bound is a guard, not a search limit: a taskbar within reach of it is
    // still found.
    let buried = std::iter::repeat(("Chrome_WidgetWin_1".to_string(), true))
        .take(MAX_WINDOWS_ABOVE - 1)
        .chain(std::iter::once(("Shell_TrayWnd".to_string(), true)));
    assert!(has_taskbar_above(buried));
}

#[test]
fn a_taskbar_past_the_bound_is_not_found() {
    let buried = std::iter::repeat(("Chrome_WidgetWin_1".to_string(), true))
        .take(MAX_WINDOWS_ABOVE)
        .chain(std::iter::once(("Shell_TrayWnd".to_string(), true)));
    assert!(!has_taskbar_above(buried));
}

#[test]
fn a_walk_goes_on_until_it_finds_ends_or_gives_up() {
    let taskbar = ("Shell_TrayWnd".to_string(), true);
    let other = ("Chrome_WidgetWin_1".to_string(), true);
    assert_eq!(examine_window(0, Some(&other)), None);
    assert_eq!(examine_window(0, Some(&taskbar)), Some(true));
    assert_eq!(examine_window(3, None), Some(false));
    assert_eq!(examine_window(MAX_WINDOWS_ABOVE - 1, Some(&taskbar)), Some(true));
    assert_eq!(examine_window(MAX_WINDOWS_ABOVE, Some(&taskbar)), Some(false));
}

const MONITOR: ContainerId = 50;

fn window(id: ContainerId, frame: Rect, display_state: DisplayState) -> Container {
    Container {
        id,
        workspace: None,
        monitor: Some(MONITOR),
        rect: Ok(frame),
        window: Some(Window {
            native: 10 * id as i64,
            state: WindowState::Fullscreen(FullscreenStateConfig {
                maximized: false,
                shown_on_top: false,
            }),
            display_state,
            native_properties: NativeWindowProperties {
                title: "".to_string(),
                class_name: None,
                process_name: "".to_string(),
                frame,
                is_minimized: false,
                is_maximized: false,
                is_resizable: true,
                shadow_borders: None,
                read_at: 0,
            },
            placement: Ok(frame),
            has_active_drag: false,
            has_pending_dpi_adjustment: false,
        }),
    }
}

/// Windows 1 to 4: two that cover the taskbar, one that is hidden and one that
/// stops at the taskbar.
fn state() -> WmState {
    let bounds = Rect::from_ltrb(0, 0, 1920, 1080);
    let working_area = Rect::from_ltrb(0, 0, 1920, 1032);
    WmState {
        os: TargetOs::Windows,
        is_paused: false,
        containers: vec![
            window(1, bounds, DisplayState::Shown),
            window(2, bounds, DisplayState::Hidden),
            window(3, working_area, DisplayState::Shown),
            window(4, bounds, DisplayState::Showing),
        ],
        workspaces: vec![],
        monitors: vec![Monitor { id: MONITOR, bounds, working_area, rect: Err("no layout".to_string()) }],
        monitors_by_hide_corner: vec![],
        focused: None,
        focus_order: vec![],
        pending_sync: PendingSync {
            containers_to_redraw: vec![],
            windows_to_redraw: vec![],
            workspaces_to_reorder: vec![],
            needs_focus_update: false,
            needs_focused_effect_update: false,
            needs_all_effects_update: false,
            needs_cursor_jump: false,
        },
        prev_effects_window: None,
        windows_marked_fullscreen: HashSet::from([10, 20, 30, 40]),
        is_focus_synced: true,
        stranded_focus_ticks: 0,
        stranded_focus_attempts: 0,
    }
}

fn remarked(state: &WmState, behind: Vec<bool>) -> Vec<i64> {
    assert!(are_suspects_in_range(state));
    match reconcile_stranded_taskbar(state, &behind) {
        TaskbarRecovery::Remark(windows) => windows,
        TaskbarRecovery::LookAbove(window) => panic!("asked to look above {}", window),
    }
}

#[test]
fn only_windows_that_cover_the_taskbar_are_looked_at() {
    let state = state();

    assert!(matches!(
        reconcile_stranded_taskbar(&state, &vec![]),
        TaskbarRecovery::LookAbove(10)
    ));
    assert!(matches!(
        reconcile_stranded_taskbar(&state, &vec![true]),
        TaskbarRecovery::LookAbove(40)
    ));
    assert_eq!(remarked(&state, vec![true, true]), vec![10, 40]);
    assert_eq!(remarked(&state, vec![false, true]), vec![40]);
    assert_eq!(remarked(&state, vec![false, false]), Vec::<i64>::new());
}

#[test]
fn a_window_that_was_never_marked_is_not_looked_at() {
    let mut state = state();
    state.windows_marked_fullscreen = HashSet::from([40]);

    assert!(matches!(
        reconcile_stranded_taskbar(&state, &vec![]),
        TaskbarRecovery::LookAbove(40)
    ));
    assert_eq!(remarked(&state, vec![true]), vec![40]);
}

#[test]
fn nothing_is_done_while_paused_or_unmarked_or_elsewhere() {
    let mut paused = state();
    paused.is_paused = true;
    assert_eq!(remarked(&paused, vec![]), Vec::<i64>::new());

    let mut unmarked = state();
    unmarked.windows_marked_fullscreen = HashSet::new();
    assert_eq!(remarked(&unmarked, vec![]), Vec::<i64>::new());

    let mut elsewhere = state();
    elsewhere.os = TargetOs::MacOs;
    assert_eq!(remarked(&elsewhere, vec![]), Vec::<i64>::new());
}

#[test]
fn a_mark_is_dropped_before_it_is_asserted() {
    let ok = Outcome::Answered(true);
    assert_eq!(
        next_remark_action(Outcome::Pending, Outcome::Pending),
        RemarkAction::Mark(false)
    );
    assert_eq!(next_remark_action(ok, Outcome::Pending), RemarkAction::Mark(true));
    assert_eq!(next_remark_action(ok, ok), RemarkAction::Done);
    assert_eq!(next_remark_action(ok, Outcome::Failed), RemarkAction::Failed);
    assert_eq!(
        next_remark_action(Outcome::Failed, Outcome::Pending),
        RemarkAction::Failed
    );
}

#[test]
fn what_the_system_cannot_tell_of_a_window_covers_nothing() {
    let taskbar = || Reading::Read("Shell_TrayWnd".to_string());
    assert_eq!(
        window_examined(taskbar(), Reading::Read(true)),
        ("Shell_TrayWnd".to_string(), true)
    );
    assert_eq!(
        window_examined(taskbar(), Reading::Failed),
        ("Shell_TrayWnd".to_string(), false)
    );
    assert_eq!(window_examined(Reading::Failed, Reading::Read(true)), ("".to_string(), true));
    assert_eq!(
        window_examined(taskbar(), Reading::Read(false)),
        ("Shell_TrayWnd".to_string(), false)
    );
}

#[test]
fn only_monitors_that_are_measured_have_to_be_in_range() {
    let huge = Rect::from_ltrb(i32::MAX, 0, 0, 0);
    let mut state = state();
    state.monitors[0].bounds = huge;
    assert!(!are_suspects_in_range(&state));

    // Where nothing is measured, nothing has to be in range.
    state.is_paused = true;
    assert_eq!(remarked(&state, vec![]), Vec::<i64>::new());
    state.is_paused = false;
    state.windows_marked_fullscreen = HashSet::from([20]);
    assert_eq!(remarked(&state, vec![]), Vec::<i64>::new());
    state.windows_marked_fullscreen = HashSet::new();
    assert_eq!(remarked(&state, vec![]), Vec::<i64>::new());
    state.windows_marked_fullscreen = HashSet::from([10]);
    state.os = TargetOs::Other;
    assert_eq!(remarked(&state, vec![]), Vec::<i64>::new());
}
