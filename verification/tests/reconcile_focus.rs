use std::collections::HashSet;

use wm::config::{
    BorderEffectConfig, Color, CornerEffectConfig, CornerStyle, CursorJumpConfig,
    CursorJumpTrigger, GeneralConfig, HideMethod, HideTitleBarEffectConfig, OpacityValue,
    TransparencyEffectConfig, UserConfig, WindowEffectConfig, WindowEffectsConfig,
};
use wm::focus_retry::{
    schedule_focus_convergence, schedule_shell_focus_restore, RetryFacts, RetryStep,
};
use wm::native_window_properties::NativeWindowProperties;
use wm::probe::{Probe, Query, Reading};
use wm::reconcile_focus::{
    are_popups_in_range, finish_focus_restore, is_poll_in_range, is_shell_focus_target,
    is_stranded_focus_target, is_taskbar_window_class, popup_is_menu_sized, reconcile_stranded_focus, shell_popup_is_open,
    FocusFacts, FocusRecovery, VisibleWindow, WindowReadings, MENU_POPUP_MIN_TASKBAR_HEIGHTS,
    SHELL_POPUP_WINDOW_CLASS,
};
use wm::rect::Rect;
use wm::state::{
    Container, DisplayState, PendingSync, TargetOs, Window, WindowState, WmState,
};

/// Heights measured from the shell against a 40px taskbar.
const TASKBAR_HEIGHT: i32 = 40;
const TOOLTIP_HEIGHT: i32 = 41;
const SUBMENU_HEIGHT: i32 = 154;
const MENU_HEIGHT: i32 = 608;

fn popup(popup_height: i32, taskbar_height: i32) -> VisibleWindow {
    VisibleWindow {
        class_name: Some(SHELL_POPUP_WINDOW_CLASS.to_string()),
        process_name: Some("explorer".to_string()),
        frame: Some(Rect::from_ltrb(0, 0, 300, popup_height)),
        owner_frame: Some(Rect::from_ltrb(0, 1000, 1920, 1000 + taskbar_height)),
    }
}

fn is_menu_sized(popup_height: i32, taskbar_height: i32) -> bool {
    let by_frames = popup_is_menu_sized(&popup(popup_height, taskbar_height));
    assert_eq!(by_frames, popup_height > taskbar_height * MENU_POPUP_MIN_TASKBAR_HEIGHTS);
    by_frames
}

#[test]
fn separates_the_shell_menus_from_its_tooltips() {
    assert!(is_menu_sized(MENU_HEIGHT, TASKBAR_HEIGHT));
    assert!(is_menu_sized(SUBMENU_HEIGHT, TASKBAR_HEIGHT));

    // The tooltip is a hair taller than the taskbar itself, and stays on screen
    // indefinitely once the shell strands one.
    assert!(!is_menu_sized(TOOLTIP_HEIGHT, TASKBAR_HEIGHT));
}

#[test]
fn the_separation_survives_display_scaling() {
    for scale in [1, 2, 3] {
        assert!(is_menu_sized(MENU_HEIGHT * scale, TASKBAR_HEIGHT * scale));
        assert!(is_menu_sized(SUBMENU_HEIGHT * scale, TASKBAR_HEIGHT * scale));
        assert!(!is_menu_sized(TOOLTIP_HEIGHT * scale, TASKBAR_HEIGHT * scale));
    }
}

#[test]
fn a_shell_popup_is_not_itself_a_taskbar() {
    assert!(!is_taskbar_window_class(SHELL_POPUP_WINDOW_CLASS));
}

#[test]
fn recognizes_only_taskbar_window_classes() {
    assert!(is_taskbar_window_class("Shell_TrayWnd"));
    assert!(is_taskbar_window_class("Shell_SecondaryTrayWnd"));
    assert!(!is_taskbar_window_class("Progman"));

    // The flyout hosts for Widgets, Search, and quick settings share this class
    // with the Start menu.
    assert!(!is_taskbar_window_class("Windows.UI.Core.CoreWindow"));
}

#[test]
fn class_names_are_told_apart_to_the_last_letter() {
    assert!(!is_taskbar_window_class(""));
    assert!(!is_taskbar_window_class("Shell_TrayWn"));
    assert!(!is_taskbar_window_class("Shell_TrayWnd2"));
    assert!(!is_taskbar_window_class("shell_traywnd"));
}

#[test]
fn a_menu_is_just_over_twice_the_height_of_the_taskbar() {
    assert!(!is_menu_sized(80, 40));
    assert!(is_menu_sized(81, 40));
}

#[test]
fn a_popup_of_unknown_size_or_owner_is_no_menu() {
    let mut ownerless = popup(MENU_HEIGHT, TASKBAR_HEIGHT);
    ownerless.owner_frame = None;
    assert!(!popup_is_menu_sized(&ownerless));

    let mut unreadable = popup(MENU_HEIGHT, TASKBAR_HEIGHT);
    unreadable.frame = None;
    assert!(!popup_is_menu_sized(&unreadable));
}

#[test]
fn only_popups_of_the_shell_count_as_its_menus() {
    let other_window = VisibleWindow {
        class_name: None,
        process_name: None,
        frame: None,
        owner_frame: None,
    };
    let open = |window: VisibleWindow| {
        let windows = Reading::Read(vec![
            VisibleWindow { ..popup(TOOLTIP_HEIGHT, TASKBAR_HEIGHT) },
            window,
        ]);
        assert!(are_popups_in_range(&windows));
        shell_popup_is_open(&windows)
    };

    assert_eq!(open(popup(MENU_HEIGHT, TASKBAR_HEIGHT)), Probe::Known(true));
    assert_eq!(open(popup(TOOLTIP_HEIGHT, TASKBAR_HEIGHT)), Probe::Known(false));
    assert_eq!(open(other_window), Probe::Known(false));

    let mut shouting = popup(MENU_HEIGHT, TASKBAR_HEIGHT);
    shouting.process_name = Some("EXPLORER".to_string());
    assert_eq!(open(shouting), Probe::Known(true));

    let mut foreign = popup(MENU_HEIGHT, TASKBAR_HEIGHT);
    foreign.process_name = Some("explorer2".to_string());
    assert_eq!(open(foreign), Probe::Known(false));

    let mut nameless = popup(MENU_HEIGHT, TASKBAR_HEIGHT);
    nameless.process_name = None;
    assert_eq!(open(nameless), Probe::Known(false));

    let mut classless = popup(MENU_HEIGHT, TASKBAR_HEIGHT);
    classless.class_name = Some("Chrome_WidgetWin_1".to_string());
    assert_eq!(open(classless), Probe::Known(false));
}

#[test]
fn windows_that_cannot_be_listed_hold_nothing_off() {
    assert_eq!(shell_popup_is_open(&Reading::Failed), Probe::Known(false));
    assert_eq!(shell_popup_is_open(&Reading::Unread), Probe::Ask(Query::VisibleWindows));
    assert!(are_popups_in_range(&Reading::Failed));
}

#[test]
fn heights_out_of_range_are_noticed_on_popups_of_the_shell() {
    let mut huge = popup(MENU_HEIGHT, TASKBAR_HEIGHT);
    huge.owner_frame = Some(Rect::from_ltrb(0, 0, 0, i32::MAX));
    assert!(!are_popups_in_range(&Reading::Read(vec![huge])));

    let mut foreign = popup(MENU_HEIGHT, TASKBAR_HEIGHT);
    foreign.owner_frame = Some(Rect::from_ltrb(0, 0, 0, i32::MAX));
    foreign.process_name = None;
    assert!(are_popups_in_range(&Reading::Read(vec![foreign])));
}

#[test]
fn popups_behind_the_first_menu_are_not_measured() {
    let mut huge = popup(MENU_HEIGHT, TASKBAR_HEIGHT);
    huge.owner_frame = Some(Rect::from_ltrb(0, 0, 0, i32::MAX));
    let windows = Reading::Read(vec![popup(MENU_HEIGHT, TASKBAR_HEIGHT), huge]);
    assert!(are_popups_in_range(&windows));
    assert_eq!(shell_popup_is_open(&windows), Probe::Known(true));
}

fn real_window() -> WindowReadings {
    WindowReadings {
        is_valid: Reading::Read(true),
        is_visible: Reading::Read(true),
        is_minimized: Reading::Read(false),
        is_desktop: Reading::Read(false),
        class_name: Reading::Read("Notepad".to_string()),
    }
}

fn taskbar() -> WindowReadings {
    WindowReadings { class_name: Reading::Read("Shell_TrayWnd".to_string()), ..real_window() }
}

#[test]
fn the_shell_is_the_desktop_the_taskbar_and_nothing() {
    assert_eq!(is_shell_focus_target(0, &WindowReadings::new()), Probe::Known(true));
    assert_eq!(is_shell_focus_target(7, &taskbar()), Probe::Known(true));
    assert_eq!(is_shell_focus_target(7, &real_window()), Probe::Known(false));
    let desktop = WindowReadings { is_desktop: Reading::Read(true), ..WindowReadings::new() };
    assert_eq!(is_shell_focus_target(7, &desktop), Probe::Known(true));

    // A window that nothing can be told of is not taken for the shell.
    let unknown = WindowReadings {
        is_desktop: Reading::Failed,
        class_name: Reading::Failed,
        ..WindowReadings::new()
    };
    assert_eq!(is_shell_focus_target(7, &unknown), Probe::Known(false));
}

#[test]
fn the_shell_is_asked_for_one_thing_at_a_time() {
    let mut readings = WindowReadings::new();
    assert_eq!(is_shell_focus_target(7, &readings), Probe::Ask(Query::IsDesktop(7)));
    readings.is_desktop = Reading::Read(false);
    assert_eq!(is_shell_focus_target(7, &readings), Probe::Ask(Query::ClassName(7)));
}

#[test]
fn focus_on_a_window_out_of_sight_is_stranded() {
    let cloaked = WindowReadings { is_visible: Reading::Read(false), ..real_window() };
    assert_eq!(is_stranded_focus_target(7, &cloaked), Probe::Known(true));
    assert_eq!(is_stranded_focus_target(7, &real_window()), Probe::Known(false));
    let unknown = WindowReadings { is_visible: Reading::Failed, ..real_window() };
    assert_eq!(is_stranded_focus_target(7, &unknown), Probe::Known(false));
}

fn effects() -> WindowEffectConfig {
    WindowEffectConfig {
        border: BorderEffectConfig { enabled: false, color: Color { r: 0, g: 0, b: 0, a: 0 } },
        hide_title_bar: HideTitleBarEffectConfig { enabled: false },
        corner_style: CornerEffectConfig { enabled: false, style: CornerStyle::Default },
        transparency: TransparencyEffectConfig {
            enabled: false,
            opacity: OpacityValue::from_alpha(u8::MAX),
        },
    }
}

fn config() -> UserConfig {
    UserConfig {
        general: GeneralConfig {
            cursor_jump: CursorJumpConfig {
                enabled: false,
                trigger: CursorJumpTrigger::MonitorFocus,
            },
            hide_method: HideMethod::Cloak,
            show_all_in_taskbar: false,
            restore_focus_on_shell: true,
        },
        window_effects: WindowEffectsConfig {
            focused_window: effects(),
            other_windows: effects(),
        },
    }
}

const TARGET: i64 = 10;
const TASKBAR: i64 = 99;

fn state() -> WmState {
    let frame = Rect::from_ltrb(0, 0, 800, 600);
    WmState {
        os: TargetOs::Windows,
        is_paused: false,
        containers: vec![Container {
            id: 1,
            workspace: None,
            monitor: None,
            rect: Ok(frame),
            window: Some(Window {
                native: TARGET,
                state: WindowState::Tiling,
                display_state: DisplayState::Shown,
                native_properties: NativeWindowProperties {
                    title: "".to_string(),
                    class_name: None,
                    process_name: "".to_string(),
                    frame,
                    is_minimized: false,
                    is_maximized: false,
                    is_resizable: true,
                    shadow_borders: None,
                    read_at: 0,
                },
                placement: Ok(frame),
                has_active_drag: false,
                has_pending_dpi_adjustment: false,
            }),
        }],
        workspaces: vec![],
        monitors: vec![],
        monitors_by_hide_corner: vec![],
        focused: Some(1),
        focus_order: vec![1],
        pending_sync: PendingSync {
            containers_to_redraw: vec![],
            windows_to_redraw: vec![],
            workspaces_to_reorder: vec![],
            needs_focus_update: false,
            needs_focused_effect_update: false,
            needs_all_effects_update: false,
            needs_cursor_jump: false,
        },
        prev_effects_window: None,
        windows_marked_fullscreen: HashSet::new(),
        is_focus_synced: true,
        stranded_focus_ticks: 0,
        stranded_focus_attempts: 0,
    }
}

/// The taskbar holds focus, and nothing is in the way of winning it back.
fn stranded() -> FocusFacts {
    FocusFacts {
        session_locked: Reading::Read(false),
        menu_open: Reading::Read(false),
        target: real_window(),
        foreground: Reading::Read(TASKBAR),
        current: taskbar(),
        visible_windows: Reading::Read(vec![]),
    }
}

#[test]
fn stranded_focus_is_restored_on_the_second_poll() {
    let mut state = state();
    assert_eq!(
        reconcile_stranded_focus(&mut state, &config(), &stranded()),
        FocusRecovery::Idle
    );
    assert_eq!(state.stranded_focus_ticks, 1);
    assert_eq!(
        reconcile_stranded_focus(&mut state, &config(), &stranded()),
        FocusRecovery::Restore(TARGET)
    );
    assert_eq!(state.stranded_focus_ticks, 0);
    assert_eq!(state.stranded_focus_attempts, 1);

    assert!(!finish_focus_restore(&mut state, true));
    assert_eq!(state.stranded_focus_attempts, 0);
}

#[test]
fn a_single_glimpse_is_forgotten() {
    let mut state = state();
    let calm = FocusFacts { foreground: Reading::Read(TARGET), ..stranded() };
    for _ in 0..5 {
        assert_eq!(
            reconcile_stranded_focus(&mut state, &config(), &stranded()),
            FocusRecovery::Idle
        );
        assert_eq!(
            reconcile_stranded_focus(&mut state, &config(), &calm),
            FocusRecovery::Idle
        );
    }
}

#[test]
fn recovery_gives_up_after_three_failures() {
    let mut state = state();
    let mut given_up = vec![];
    for _ in 0..20 {
        let recovery = reconcile_stranded_focus(&mut state, &config(), &stranded());
        if recovery != FocusRecovery::Idle {
            assert_eq!(recovery, FocusRecovery::Restore(TARGET));
            given_up.push(finish_focus_restore(&mut state, false));
        }
    }
    assert_eq!(given_up, vec![false, false, true]);
    assert_eq!(state.stranded_focus_attempts, 3);

    // Once focus lands anywhere real, a later stranding gets a fresh set.
    let calm = FocusFacts { current: real_window(), ..stranded() };
    reconcile_stranded_focus(&mut state, &config(), &calm);
    assert_eq!(state.stranded_focus_attempts, 0);
    reconcile_stranded_focus(&mut state, &config(), &stranded());
    assert_eq!(
        reconcile_stranded_focus(&mut state, &config(), &stranded()),
        FocusRecovery::Restore(TARGET)
    );
}

/// Polls once with the counters run up, and tells whether they were reset.
fn resets(mut state: WmState, config: UserConfig, facts: FocusFacts) -> bool {
    state.stranded_focus_ticks = 1;
    state.stranded_focus_attempts = 2;
    let recovery = reconcile_stranded_focus(&mut state, &config, &facts);
    recovery == FocusRecovery::Idle
        && state.stranded_focus_ticks == 0
        && state.stranded_focus_attempts == 0
}

#[test]
fn whatever_speaks_against_recovery_resets_it() {
    assert!(!resets(state(), config(), stranded()));

    let mut paused = state();
    paused.is_paused = true;
    assert!(resets(paused, config(), FocusFacts::new()));

    let mut disabled = config();
    disabled.general.restore_focus_on_shell = false;
    assert!(resets(state(), disabled, FocusFacts::new()));

    let locked = FocusFacts { session_locked: Reading::Read(true), ..FocusFacts::new() };
    assert!(resets(state(), config(), locked));

    let menu = FocusFacts { menu_open: Reading::Read(true), ..stranded() };
    assert!(resets(state(), config(), menu));

    let popup_menu = FocusFacts {
        visible_windows: Reading::Read(vec![popup(MENU_HEIGHT, TASKBAR_HEIGHT)]),
        ..stranded()
    };
    assert!(resets(state(), config(), popup_menu));

    let nowhere = FocusFacts { foreground: Reading::Failed, ..stranded() };
    assert!(resets(state(), config(), nowhere));

    let minimized = FocusFacts {
        target: WindowReadings { is_minimized: Reading::Failed, ..real_window() },
        ..stranded()
    };
    assert!(resets(state(), config(), minimized));

    let invisible = FocusFacts {
        target: WindowReadings { is_visible: Reading::Failed, ..real_window() },
        ..stranded()
    };
    assert!(resets(state(), config(), invisible));

    let mut hidden = state();
    hidden.containers[0].window.as_mut().unwrap().display_state = DisplayState::Hidden;
    assert!(resets(hidden, config(), stranded()));

    let mut unfocused = state();
    unfocused.focused = None;
    assert!(resets(unfocused, config(), stranded()));
}

#[test]
fn checks_that_fail_do_not_disable_recovery() {
    let mut state = state();
    let blind = FocusFacts {
        session_locked: Reading::Failed,
        menu_open: Reading::Failed,
        visible_windows: Reading::Failed,
        ..stranded()
    };
    state.stranded_focus_ticks = 1;
    assert_eq!(
        reconcile_stranded_focus(&mut state, &config(), &blind),
        FocusRecovery::Restore(TARGET)
    );
}

#[test]
fn questions_are_asked_in_turn_and_change_nothing() {
    let mut state = state();
    state.stranded_focus_ticks = 1;
    let mut facts = FocusFacts::new();
    let mut asked = vec![];
    let recovery = loop {
        let query = match reconcile_stranded_focus(&mut state, &config(), &facts) {
            FocusRecovery::Ask(query) => query,
            recovery => break recovery,
        };
        assert_eq!(state.stranded_focus_ticks, 1);
        asked.push(query);
        match query {
            Query::SessionLocked => facts.session_locked = Reading::Read(false),
            Query::MenuOpen => facts.menu_open = Reading::Read(false),
            Query::Foreground => facts.foreground = Reading::Read(TASKBAR),
            Query::VisibleWindows => facts.visible_windows = Reading::Read(vec![]),
            Query::IsVisible(TARGET) => facts.target.is_visible = Reading::Read(true),
            Query::IsMinimized(TARGET) => facts.target.is_minimized = Reading::Read(false),
            Query::IsDesktop(TASKBAR) => facts.current.is_desktop = Reading::Read(false),
            Query::ClassName(TASKBAR) => {
                facts.current.class_name = Reading::Read("Shell_TrayWnd".to_string())
            }
            other => panic!("unexpected question {:?}", other),
        }
    };
    assert_eq!(recovery, FocusRecovery::Restore(TARGET));
    assert_eq!(
        asked,
        vec![
            Query::SessionLocked,
            Query::MenuOpen,
            Query::IsVisible(TARGET),
            Query::IsMinimized(TARGET),
            Query::Foreground,
            Query::IsDesktop(TASKBAR),
            Query::ClassName(TASKBAR),
            Query::VisibleWindows,
        ]
    );
}

#[test]
fn counters_at_their_end_matter_only_where_they_are_counted_up() {
    let mut state = state();
    state.stranded_focus_ticks = u32::MAX;
    assert!(!is_poll_in_range(&state, &config(), &stranded()));

    let menu = FocusFacts {
        visible_windows: Reading::Read(vec![popup(MENU_HEIGHT, TASKBAR_HEIGHT)]),
        ..stranded()
    };
    assert!(is_poll_in_range(&state, &config(), &menu));
    let calm = FocusFacts { foreground: Reading::Read(TARGET), ..stranded() };
    assert!(is_poll_in_range(&state, &config(), &calm));
    assert_eq!(reconcile_stranded_focus(&mut state, &config(), &calm), FocusRecovery::Idle);
    assert_eq!(state.stranded_focus_ticks, 0);
}

#[test]
fn elsewhere_focus_is_never_restored() {
    let mut state = state();
    state.os = TargetOs::MacOs;
    state.stranded_focus_ticks = 1;
    assert_eq!(
        reconcile_stranded_focus(&mut state, &config(), &stranded()),
        FocusRecovery::Idle
    );
    assert_eq!(state.stranded_focus_ticks, 1);
}

const PREVIOUS: i64 = 20;

fn unmoved() -> RetryFacts {
    RetryFacts {
        foreground: Reading::Read(PREVIOUS),
        current: real_window(),
        target: real_window(),
        menu_open: Reading::Read(false),
    }
}

#[test]
fn convergence_waits_longer_every_time_and_stops() {
    let waits: Vec<RetryStep> = (0..6)
        .map(|passes| schedule_focus_convergence(TARGET, PREVIOUS, passes, None))
        .collect();
    assert_eq!(
        waits,
        vec![
            RetryStep::Wait(75),
            RetryStep::Wait(150),
            RetryStep::Wait(300),
            RetryStep::Wait(600),
            RetryStep::Stop,
            RetryStep::Stop,
        ]
    );
}

#[test]
fn convergence_retries_only_while_focus_has_not_moved() {
    let step = |facts: RetryFacts| schedule_focus_convergence(TARGET, PREVIOUS, 0, Some(&facts));

    assert_eq!(step(unmoved()), RetryStep::Focus(TARGET));
    assert_eq!(step(RetryFacts::new()), RetryStep::Ask(Query::Foreground));
    assert_eq!(
        step(RetryFacts { foreground: Reading::Read(TARGET), ..unmoved() }),
        RetryStep::Stop
    );
    assert_eq!(
        step(RetryFacts { foreground: Reading::Read(30), ..unmoved() }),
        RetryStep::Stop
    );
    assert_eq!(step(RetryFacts { foreground: Reading::Failed, ..unmoved() }), RetryStep::Stop);
    let target = |target: WindowReadings| step(RetryFacts { target, ..unmoved() });
    assert_eq!(
        target(WindowReadings { is_valid: Reading::Read(false), ..real_window() }),
        RetryStep::Stop
    );
    assert_eq!(
        target(WindowReadings { is_visible: Reading::Failed, ..real_window() }),
        RetryStep::Stop
    );
    assert_eq!(
        target(WindowReadings { is_minimized: Reading::Failed, ..real_window() }),
        RetryStep::Stop
    );
    assert_eq!(target(WindowReadings::new()), RetryStep::Ask(Query::IsValid(TARGET)));
}

#[test]
fn shell_restores_wait_longer_and_stop() {
    let waits: Vec<RetryStep> =
        (0..5).map(|passes| schedule_shell_focus_restore(TARGET, passes, None)).collect();
    assert_eq!(
        waits,
        vec![
            RetryStep::Wait(150),
            RetryStep::Wait(150),
            RetryStep::Wait(300),
            RetryStep::Wait(600),
            RetryStep::Stop,
        ]
    );
}

#[test]
fn shell_restores_take_focus_from_nothing_but_the_shell() {
    let step = |facts: RetryFacts| schedule_shell_focus_restore(TARGET, 1, Some(&facts));
    let on_shell = || RetryFacts {
        foreground: Reading::Read(TASKBAR),
        current: taskbar(),
        ..unmoved()
    };

    assert_eq!(step(on_shell()), RetryStep::Focus(TARGET));
    assert_eq!(step(RetryFacts { current: real_window(), ..on_shell() }), RetryStep::Stop);
    assert_eq!(
        step(RetryFacts { menu_open: Reading::Read(true), ..on_shell() }),
        RetryStep::Stop
    );
    assert_eq!(
        step(RetryFacts { menu_open: Reading::Failed, ..on_shell() }),
        RetryStep::Focus(TARGET)
    );
    assert_eq!(
        step(RetryFacts { menu_open: Reading::Unread, ..on_shell() }),
        RetryStep::Ask(Query::MenuOpen)
    );
    assert_eq!(
        step(RetryFacts { foreground: Reading::Read(TARGET), ..on_shell() }),
        RetryStep::Stop
    );
}
