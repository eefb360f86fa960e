use std::collections::HashSet;

use wm::focus_window_in_cycle::{
    focus_window_in_cycle, window_cycle_target, FocusCycleDirection,
};
use wm::native_window_properties::NativeWindowProperties;
use wm::rect::Rect;
use wm::state::{
    Container, ContainerId, DisplayState, FloatingStateConfig, FullscreenStateConfig, PendingSync,
    TargetOs, Window, WindowState, WmState, Workspace,
};

const WORKSPACE: ContainerId = 100;

fn fullscreen() -> WindowState {
    WindowState::Fullscreen(FullscreenStateConfig { maximized: false, shown_on_top: false })
}

fn floating() -> WindowState {
    WindowState::Floating(FloatingStateConfig { shown_on_top: false })
}

fn window(id: ContainerId, state: WindowState) -> Container {
    let frame = Rect::from_ltrb(0, 0, 800, 600);
    Container {
        id,
        workspace: Some(WORKSPACE),
        monitor: None,
        rect: Ok(frame),
        window: Some(Window {
            native: id as i64,
            state,
            display_state: DisplayState::Shown,
            native_properties: NativeWindowProperties {
                title: "".to_string(),
                class_name: None,
                process_name: "".to_string(),
                frame,
                is_minimized: false,
                is_maximized: false,
                is_resizable: true,
                shadow_borders: None,
                read_at: 0,
            },
            placement: Ok(frame),
            has_active_drag: false,
            has_pending_dpi_adjustment: false,
        }),
    }
}

/// A workspace that holds the given windows in this order.
fn workspace_of(windows: Vec<Container>) -> WmState {
    let ids: Vec<ContainerId> = windows.iter().map(|window| window.id).collect();
    let mut containers = windows;
    containers.push(Container {
        id: WORKSPACE,
        workspace: Some(WORKSPACE),
        monitor: None,
        rect: Err("no layout".to_string()),
        window: None,
    });
    WmState {
        os: TargetOs::Windows,
        is_paused: false,
        containers,
        workspaces: vec![Workspace {
            id: WORKSPACE,
            name: "1".to_string(),
            is_displayed: true,
            descendants: ids.clone(),
            focus_order: ids.clone(),
        }],
        monitors: vec![],
        monitors_by_hide_corner: vec![],
        focused: ids.first().copied(),
        focus_order: ids,
        pending_sync: PendingSync {
            containers_to_redraw: vec![],
            windows_to_redraw: vec![],
            workspaces_to_reorder: vec![],
            needs_focus_update: false,
            needs_focused_effect_update: false,
            needs_all_effects_update: false,
            needs_cursor_jump: false,
        },
        prev_effects_window: None,
        windows_marked_fullscreen: HashSet::new(),
        is_focus_synced: true,
        stranded_focus_ticks: 0,
        stranded_focus_attempts: 0,
    }
}

#[test]
fn cycles_fullscreen_windows_and_wraps() {
    let state = workspace_of(vec![
        window(1, fullscreen()),
        window(2, fullscreen()),
        window(3, fullscreen()),
    ]);

    let next = window_cycle_target(3, FocusCycleDirection::Next, &state);
    let previous = window_cycle_target(1, FocusCycleDirection::Previous, &state);

    assert_eq!(next, Some(1));
    assert_eq!(previous, Some(3));
}

#[test]
fn skips_windows_with_a_different_state() {
    let state = workspace_of(vec![
        window(1, fullscreen()),
        window(2, floating()),
        window(3, fullscreen()),
    ]);

    let next = window_cycle_target(1, FocusCycleDirection::Next, &state);

    assert_eq!(next, Some(3));
}

#[test]
fn does_nothing_without_another_window_in_the_same_state() {
    let state = workspace_of(vec![window(1, fullscreen()), window(2, floating())]);

    let target = window_cycle_target(1, FocusCycleDirection::Next, &state);

    assert!(target.is_none());
}

#[test]
fn the_configuration_of_a_state_does_not_part_windows() {
    let on_top = WindowState::Fullscreen(FullscreenStateConfig {
        maximized: true,
        shown_on_top: true,
    });
    let state = workspace_of(vec![window(1, fullscreen()), window(2, on_top)]);

    assert_eq!(window_cycle_target(1, FocusCycleDirection::Next, &state), Some(2));
}

#[test]
fn going_on_comes_by_every_window_and_back() {
    let state = workspace_of(vec![
        window(1, WindowState::Tiling),
        window(2, WindowState::Tiling),
        window(3, WindowState::Tiling),
    ]);

    let mut visited = vec![];
    let mut at = 2;
    for _ in 0..3 {
        at = window_cycle_target(at, FocusCycleDirection::Next, &state).unwrap();
        visited.push(at);
    }
    assert_eq!(visited, vec![3, 1, 2]);

    let there = window_cycle_target(3, FocusCycleDirection::Next, &state).unwrap();
    assert_eq!(window_cycle_target(there, FocusCycleDirection::Previous, &state), Some(3));
}

#[test]
fn going_back_comes_by_every_window_and_wraps() {
    let state = workspace_of(vec![
        window(1, WindowState::Tiling),
        window(2, WindowState::Tiling),
        window(3, WindowState::Tiling),
    ]);

    let mut visited = vec![];
    let mut at = 2;
    for _ in 0..3 {
        at = window_cycle_target(at, FocusCycleDirection::Previous, &state).unwrap();
        visited.push(at);
    }
    assert_eq!(visited, vec![1, 3, 2]);
}

#[test]
fn minimized_windows_and_other_containers_are_no_origin() {
    let state = workspace_of(vec![
        window(1, WindowState::Minimized),
        window(2, WindowState::Minimized),
    ]);

    assert_eq!(window_cycle_target(1, FocusCycleDirection::Next, &state), None);
    assert_eq!(window_cycle_target(WORKSPACE, FocusCycleDirection::Next, &state), None);
    assert_eq!(window_cycle_target(7, FocusCycleDirection::Next, &state), None);
}

#[test]
fn a_window_in_no_workspace_is_no_origin() {
    let mut lost = window(1, WindowState::Tiling);
    lost.workspace = None;
    let state = workspace_of(vec![lost, window(2, WindowState::Tiling)]);

    assert_eq!(window_cycle_target(1, FocusCycleDirection::Next, &state), None);
}

#[test]
fn a_cycle_queues_focus_and_the_cursor() {
    let mut state = workspace_of(vec![
        window(1, WindowState::Tiling),
        window(2, WindowState::Tiling),
    ]);

    let target = focus_window_in_cycle(1, FocusCycleDirection::Previous, &mut state);

    assert_eq!(target, Some(2));
    assert!(state.pending_sync.needs_focus_update);
    assert!(state.pending_sync.needs_cursor_jump);
    assert!(!state.pending_sync.needs_focused_effect_update);
}

#[test]
fn without_a_target_nothing_is_queued() {
    let mut state = workspace_of(vec![window(1, WindowState::Tiling)]);

    let target = focus_window_in_cycle(1, FocusCycleDirection::Next, &mut state);

    assert_eq!(target, None);
    assert!(!state.pending_sync.needs_focus_update);
    assert!(!state.pending_sync.needs_cursor_jump);
}
