use std::collections::HashSet;

use wm::config::{
    BorderEffectConfig, Color, CornerEffectConfig, CornerStyle, CursorJumpConfig,
    CursorJumpTrigger, GeneralConfig, HideMethod, HideTitleBarEffectConfig, OpacityValue,
    TransparencyEffectConfig, UserConfig, WindowEffectConfig, WindowEffectsConfig,
};
use wm::error::WmError;
use wm::fullscreen::WmEvent;
use wm::handle_window_focused::{
    handle_window_focused, next_manual_focus_action, settle_manual_focus, should_override_focus,
    FocusResponse, FocusedWindowFacts, ManualFocus, ManualFocusAction, ManualFocusReplies,
};
use wm::native_window_properties::NativeWindowProperties;
use wm::probe::{Query, Reading};
use wm::reconcile_focus::WindowReadings;
use wm::rect::Rect;
use wm::reposition::Outcome;
use wm::state::{
    Container, ContainerId, DisplayState, PendingSync, TargetOs, Window, WindowState, WmState,
    Workspace,
};

const WORKSPACE: ContainerId = 100;
const OTHER_WORKSPACE: ContainerId = 200;

fn window(id: ContainerId, workspace: Option<ContainerId>, display_state: DisplayState) -> Container {
    let frame = Rect::from_ltrb(0, 0, 800, 600);
    Container {
        id,
        workspace,
        monitor: None,
        rect: Ok(frame),
        window: Some(Window {
            native: 10 * id as i64,
            state: WindowState::Tiling,
            display_state,
            native_properties: NativeWindowProperties {
                title: "".to_string(),
                class_name: None,
                process_name: "".to_string(),
                frame,
                is_minimized: false,
                is_maximized: false,
                is_resizable: true,
                shadow_borders: None,
                read_at: 0,
            },
            placement: Ok(frame),
            has_active_drag: false,
            has_pending_dpi_adjustment: false,
        }),
    }
}

fn workspace(id: ContainerId, name: &str, is_displayed: bool) -> Workspace {
    Workspace {
        id,
        name: name.to_string(),
        is_displayed,
        descendants: vec![],
        focus_order: vec![],
    }
}

/// Window 1 has focus. Windows 2 and 3 are on screen and out of sight, window 4
/// is being hidden, and window 5 lies in no workspace.
fn state() -> WmState {
    WmState {
        os: TargetOs::Windows,
        is_paused: false,
        containers: vec![
            Container {
                id: WORKSPACE,
                workspace: Some(WORKSPACE),
                monitor: None,
                rect: Err("no layout".to_string()),
                window: None,
            },
            window(1, Some(WORKSPACE), DisplayState::Shown),
            window(2, Some(WORKSPACE), DisplayState::Shown),
            window(3, Some(OTHER_WORKSPACE), DisplayState::Hidden),
            window(4, Some(OTHER_WORKSPACE), DisplayState::Hiding),
            window(5, None, DisplayState::Shown),
        ],
        workspaces: vec![
            workspace(WORKSPACE, "main", true),
            workspace(OTHER_WORKSPACE, "chat", false),
        ],
        monitors: vec![],
        monitors_by_hide_corner: vec![],
        focused: Some(1),
        focus_order: vec![],
        pending_sync: PendingSync {
            containers_to_redraw: vec![],
            windows_to_redraw: vec![],
            workspaces_to_reorder: vec![],
            needs_focus_update: false,
            needs_focused_effect_update: false,
            needs_all_effects_update: false,
            needs_cursor_jump: false,
        },
        prev_effects_window: None,
        windows_marked_fullscreen: HashSet::new(),
        is_focus_synced: false,
        stranded_focus_ticks: 0,
        stranded_focus_attempts: 0,
    }
}

fn effects() -> WindowEffectConfig {
    WindowEffectConfig {
        border: BorderEffectConfig { enabled: false, color: Color { r: 0, g: 0, b: 0, a: 0 } },
        hide_title_bar: HideTitleBarEffectConfig { enabled: false },
        corner_style: CornerEffectConfig { enabled: false, style: CornerStyle::Default },
        transparency: TransparencyEffectConfig {
            enabled: false,
            opacity: OpacityValue::from_alpha(u8::MAX),
        },
    }
}

fn config() -> UserConfig {
    UserConfig {
        general: GeneralConfig {
            cursor_jump: CursorJumpConfig {
                enabled: false,
                trigger: CursorJumpTrigger::MonitorFocus,
            },
            hide_method: HideMethod::Cloak,
            show_all_in_taskbar: false,
            restore_focus_on_shell: true,
        },
        window_effects: WindowEffectsConfig {
            focused_window: effects(),
            other_windows: effects(),
        },
    }
}

fn real_window() -> WindowReadings {
    WindowReadings {
        is_valid: Reading::Read(true),
        is_visible: Reading::Read(true),
        is_minimized: Reading::Read(false),
        is_desktop: Reading::Read(false),
        class_name: Reading::Read("Notepad".to_string()),
    }
}

fn facts() -> FocusedWindowFacts {
    FocusedWindowFacts { native: real_window(), target: real_window() }
}

fn on_taskbar() -> FocusedWindowFacts {
    FocusedWindowFacts {
        native: WindowReadings {
            class_name: Reading::Read("Shell_TrayWnd".to_string()),
            ..real_window()
        },
        target: real_window(),
    }
}

#[test]
fn focus_is_overridden_for_a_tenth_of_a_second() {
    assert!(should_override_focus(Some(0), false));
    assert!(should_override_focus(Some(99), false));
    assert!(!should_override_focus(Some(100), false));
    assert!(!should_override_focus(Some(50), true));
    assert!(!should_override_focus(None, false));
}

#[test]
fn without_anything_focused_there_is_an_error() {
    let mut state = state();
    state.focused = None;
    let response = handle_window_focused(10, &mut state, &config(), None, &facts());
    assert!(matches!(response, FocusResponse::Failed(WmError::NoFocusedContainer)));
    assert_eq!(WmError::NoFocusedContainer.message(), "No focused container.");
}

#[test]
fn focus_after_a_window_left_is_sent_back() {
    let mut state = state();
    let response = handle_window_focused(20, &mut state, &config(), Some(40), &facts());
    assert!(matches!(response, FocusResponse::Done));
    assert!(state.pending_sync.needs_focus_update);
    assert!(!state.pending_sync.needs_focused_effect_update);
    assert!(!state.is_focus_synced);
}

#[test]
fn focus_that_has_arrived_is_not_sent_back() {
    let mut state = state();
    let response = handle_window_focused(10, &mut state, &config(), Some(40), &facts());
    assert!(matches!(response, FocusResponse::Done));
    assert!(!state.pending_sync.needs_focus_update);
    assert!(state.pending_sync.needs_focused_effect_update);
    assert!(state.is_focus_synced);
    assert_eq!(state.pending_sync.workspaces_to_reorder, vec![WORKSPACE]);
}

#[test]
fn focus_left_on_the_shell_is_won_back() {
    let mut state = state();
    let response = handle_window_focused(99, &mut state, &config(), None, &on_taskbar());
    assert!(matches!(response, FocusResponse::RestoreFromShell(10)));
    assert!(!state.is_focus_synced);
    assert!(!state.pending_sync.needs_focused_effect_update);
}

#[test]
fn focus_on_the_shell_is_accepted_where_it_may_stay() {
    let accepted = |mut state: WmState, config: UserConfig, facts: FocusedWindowFacts| {
        let response = handle_window_focused(99, &mut state, &config, None, &facts);
        matches!(response, FocusResponse::Done) && state.pending_sync.needs_focused_effect_update
    };

    let mut paused = state();
    paused.is_paused = true;
    assert!(accepted(paused, config(), on_taskbar()));

    let mut elsewhere = state();
    elsewhere.os = TargetOs::Other;
    assert!(accepted(elsewhere, config(), FocusedWindowFacts::new()));

    let mut disabled = config();
    disabled.general.restore_focus_on_shell = false;
    assert!(accepted(state(), disabled, FocusedWindowFacts::new()));

    let minimized = FocusedWindowFacts {
        target: WindowReadings { is_minimized: Reading::Read(true), ..real_window() },
        ..on_taskbar()
    };
    assert!(accepted(state(), config(), minimized));

    // A window that is none of the window manager's keeps its focus.
    assert!(accepted(state(), config(), facts()));
}

#[test]
fn the_desktop_is_where_focus_belongs_without_a_window() {
    let mut state = state();
    state.focused = Some(WORKSPACE);
    let response = handle_window_focused(
        99,
        &mut state,
        &config(),
        Some(10),
        &FocusedWindowFacts::new(),
    );
    assert!(matches!(response, FocusResponse::Ask(Query::IsDesktop(99))));
    assert!(!state.pending_sync.needs_focus_update);

    let desktop = FocusedWindowFacts {
        native: WindowReadings { is_desktop: Reading::Read(true), ..WindowReadings::new() },
        ..FocusedWindowFacts::new()
    };
    let response = handle_window_focused(99, &mut state, &config(), Some(10), &desktop);
    assert!(matches!(response, FocusResponse::Done));
    assert!(state.is_focus_synced);
    assert!(state.pending_sync.needs_focused_effect_update);
}

#[test]
fn a_window_being_hidden_does_not_get_focus() {
    let mut state = state();
    let response = handle_window_focused(40, &mut state, &config(), None, &facts());
    assert!(matches!(response, FocusResponse::Done));
    assert!(!state.pending_sync.needs_focused_effect_update);
}

#[test]
fn a_window_in_no_workspace_is_an_error() {
    let mut state = state();
    let response = handle_window_focused(50, &mut state, &config(), None, &facts());
    assert!(matches!(response, FocusResponse::Failed(WmError::FocusedWindowHasNoWorkspace)));
    assert!(state.pending_sync.needs_focused_effect_update);
    assert_eq!(WmError::FocusedWindowHasNoWorkspace.message(), "No workspace");
}

fn manual(state: &mut WmState, native: i64) -> ManualFocus {
    match handle_window_focused(native, state, &config(), None, &facts()) {
        FocusResponse::FocusManually(manual) => manual,
        response => panic!("unexpected response {:?}", response),
    }
}

#[test]
fn a_window_on_screen_is_focused_where_it_is() {
    let mut state = state();
    let manual = manual(&mut state, 20);
    assert_eq!(manual.window, 2);
    assert_eq!(manual.workspace, WORKSPACE);
    assert_eq!(manual.workspace_to_display, None);
    assert!(!state.is_focus_synced);
    assert!(state.pending_sync.needs_focused_effect_update);
    assert!(state.pending_sync.workspaces_to_reorder.is_empty());
}

#[test]
fn a_window_out_of_sight_brings_its_workspace() {
    let mut state = state();
    let manual = manual(&mut state, 30);
    assert_eq!(manual.window, 3);
    assert_eq!(manual.workspace, OTHER_WORKSPACE);
    assert_eq!(manual.workspace_to_display.as_deref(), Some("chat"));
}

/// Takes every step, and lists them.
fn steps(manual: &ManualFocus, failing: &str, state: &mut WmState) -> Vec<String> {
    let mut replies = ManualFocusReplies::new();
    let mut taken = vec![];
    let outcome = |step: &str| {
        if step == failing {
            Outcome::Failed
        } else {
            Outcome::Answered(true)
        }
    };
    loop {
        match next_manual_focus_action(manual, &replies) {
            ManualFocusAction::FocusWorkspace(name) => {
                taken.push(format!("display {}", name));
                replies.workspace_display = outcome("display");
            }
            ManualFocusAction::SetFocusedDescendant(id) => {
                taken.push(format!("focus {}", id));
                replies.tree_update = outcome("focus");
            }
            ManualFocusAction::RunWindowRules(id) => {
                taken.push(format!("rules {}", id));
                replies.window_rules = outcome("rules");
            }
            ManualFocusAction::Settle(workspace) => {
                taken.push(format!("settle {}", workspace));
                settle_manual_focus(state, workspace);
                replies.settlement = outcome("settle");
            }
            ManualFocusAction::Announce(event) => {
                assert_eq!(event, WmEvent::FocusChanged { focused_container: manual.window });
                taken.push("announce".to_string());
                replies.announcement = outcome("announce");
            }
            ManualFocusAction::Failed => {
                taken.push("failed".to_string());
                return taken;
            }
            ManualFocusAction::Done => return taken,
        }
    }
}

#[test]
fn a_window_is_focused_step_by_step() {
    let mut state = state();
    let hidden = manual(&mut state, 30);
    assert_eq!(
        steps(&hidden, "", &mut state),
        vec!["display chat", "focus 3", "rules 3", "settle 200", "announce"]
    );
    assert!(state.is_focus_synced);
    assert_eq!(state.pending_sync.workspaces_to_reorder, vec![OTHER_WORKSPACE]);

    let shown = manual(&mut state, 20);
    assert_eq!(
        steps(&shown, "", &mut state),
        vec!["focus 2", "rules 2", "settle 100", "announce"]
    );
}

#[test]
fn a_failed_step_ends_it() {
    let mut state = state();
    let hidden = manual(&mut state, 30);
    assert_eq!(steps(&hidden, "display", &mut state), vec!["display chat", "failed"]);
    assert_eq!(
        steps(&hidden, "rules", &mut state),
        vec!["display chat", "focus 3", "rules 3", "failed"]
    );
    assert!(!state.is_focus_synced);
    assert_eq!(
        steps(&hidden, "announce", &mut state),
        vec!["display chat", "focus 3", "rules 3", "settle 200", "announce", "failed"]
    );
    assert!(state.is_focus_synced);
}
