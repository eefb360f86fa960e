use std::collections::HashSet;

use wm::config::{
    BorderEffectConfig, Color, CornerEffectConfig, CornerStyle, CursorJumpConfig,
    CursorJumpTrigger, GeneralConfig, HideMethod, HideTitleBarEffectConfig, OpacityValue,
    TransparencyEffectConfig, UserConfig, WindowEffectConfig, WindowEffectsConfig,
};
use wm::effects::{apply_window_effects, update_effects, EffectCall};
use wm::error::WmError;
use wm::fullscreen::{
    covers_taskbar, fills_monitor, finish_fullscreen_mark, is_covering_taskbar,
    keeps_own_fullscreen_frame, sync_fullscreen_mark, WmEvent,
};
use wm::native_window_properties::NativeWindowProperties;
use wm::platform_sync::{
    is_sync_in_range, jump_cursor, platform_sync, sync_focus, CursorJump, FocusAction,
    FocusReplies, SyncJob, SyncStage,
};
use wm::probe::Reading;
use wm::rect::Rect;
use wm::redraw::{
    are_redraws_in_range, is_update_in_range, next_update_action, redraw_containers,
    should_sync_taskbar_visibility, Redraw, UpdateAction, UpdateReplies, WindowUpdate,
};
use wm::redraw_order::{redraw_sort_key, sort_for_redraw, windows_to_bring_to_front};
use wm::reposition::{
    is_placement_in_range, next_placement_action, reposition_window, Outcome, Placement,
    PlacementAction, PlacementCall, PlacementError, PlacementReplies, PlacementStep, Positioning,
    SwpFlags,
};
use wm::state::{
    Container, ContainerId, DisplayState, FloatingStateConfig, FullscreenStateConfig, HideCorner,
    Monitor, PendingSync, TargetOs, Window, WindowRef, WindowState, WindowZOrder, WmState,
    Workspace,
};

#[test]
fn redraws_destination_before_hiding_outgoing_workspace() {
    let mut windows = [
        ("outgoing_focused", false, Some(0)),
        ("destination_focused", true, Some(1)),
        ("outgoing_other", false, Some(2)),
        ("destination_other", true, Some(3)),
    ];

    windows.sort_by_key(|(_, is_displayed, focus_order)| {
        redraw_sort_key(*is_displayed, *focus_order)
    });

    let update_order = windows.iter().rev().map(|(name, _, _)| *name).collect::<Vec<_>>();

    assert_eq!(
        update_order,
        [
            "destination_other",
            "destination_focused",
            "outgoing_other",
            "outgoing_focused",
        ]
    );
}

/// Width of the invisible resize border Windows lays outside a window's visible
/// frame.
const RESIZE_BORDER: i32 = 13;

/// Where Windows puts a window maximized on a monitor with this working area.
fn maximized_frame(working_area: &Rect) -> Rect {
    working_area.inset(-RESIZE_BORDER)
}

/// Monitors to check the rule against, as (bounds, working area).
///
/// Between them they vary everything the rule must not depend on: which edge
/// reserves a strip for the taskbar, how thick it is, the monitor's resolution,
/// and whether its origin is (0, 0).
fn monitors() -> [(Rect, Rect); 6] {
    [
        // Taskbar along the bottom, the usual arrangement.
        (Rect::from_ltrb(0, 0, 1920, 1080), Rect::from_ltrb(0, 0, 1920, 1032)),
        // The same edge on a larger monitor with a thicker strip.
        (Rect::from_ltrb(0, 0, 2560, 1440), Rect::from_ltrb(0, 0, 2560, 1380)),
        // The other three edges.
        (Rect::from_ltrb(0, 0, 1920, 1080), Rect::from_ltrb(0, 60, 1920, 1080)),
        (Rect::from_ltrb(0, 0, 1920, 1080), Rect::from_ltrb(96, 0, 1920, 1080)),
        (Rect::from_ltrb(0, 0, 3840, 2160), Rect::from_ltrb(0, 0, 3720, 2160)),
        // A monitor left of and above the primary one, so that its bounds are
        // negative on both axes.
        (Rect::from_ltrb(-1920, -120, 0, 960), Rect::from_ltrb(-1920, -120, 0, 912)),
    ]
}

#[test]
fn a_frame_at_the_monitor_bounds_covers_the_taskbar() {
    for (bounds, working_area) in monitors() {
        assert!(
            covers_taskbar(&bounds, &bounds, &working_area),
            "frame at the monitor's own bounds: {bounds:?}",
        );

        // An application that keeps its resize borders on the way into
        // fullscreen overshoots the monitor, which covers it just as well.
        assert!(
            covers_taskbar(&bounds.inset(-RESIZE_BORDER), &bounds, &working_area),
            "frame past the monitor's bounds: {bounds:?}",
        );
    }
}

#[test]
fn a_maximized_frame_does_not_cover_the_taskbar() {
    // Past the monitor on the free sides, stopping at the reserved strip.
    for (bounds, working_area) in monitors() {
        assert!(
            !covers_taskbar(&maximized_frame(&working_area), &bounds, &working_area),
            "maximized frame on {bounds:?}",
        );

        assert!(
            !covers_taskbar(&working_area, &bounds, &working_area),
            "frame filling the working area of {bounds:?}",
        );
    }
}

#[test]
fn nothing_covers_a_taskbar_that_reserves_no_space() {
    // An auto-hidden taskbar leaves the whole monitor as working area, so a
    // window covering the monitor covers nothing that was on screen.
    for (bounds, _) in monitors() {
        assert!(
            !covers_taskbar(&bounds, &bounds, &bounds),
            "monitor with no reserved strip: {bounds:?}",
        );
    }
}

#[test]
fn a_window_over_the_whole_monitor_keeps_its_own_frame() {
    for (bounds, _) in monitors() {
        assert!(
            fills_monitor(&bounds, &bounds),
            "frame at the monitor's own bounds: {bounds:?}",
        );

        // What would otherwise be re-applied: the rect grown by the window's
        // cached resize border, which is where the drift came from.
        assert!(
            fills_monitor(&bounds.inset(-RESIZE_BORDER), &bounds),
            "frame past the monitor's bounds: {bounds:?}",
        );
    }
}

#[test]
fn a_window_short_of_the_monitor_is_still_placed_by_the_wm() {
    for (bounds, working_area) in monitors() {
        // A maximized window stops at the taskbar, so it is still placed.
        assert!(
            !fills_monitor(&maximized_frame(&working_area), &bounds),
            "maximized frame on {bounds:?}",
        );

        assert!(
            !fills_monitor(&working_area, &bounds),
            "frame filling the working area of {bounds:?}",
        );

        // A window fullscreen on a different monitor does not count as having
        // placed itself on this one.
        let elsewhere = Rect::from_ltrb(
            bounds.left + bounds.width(),
            bounds.top,
            bounds.right + bounds.width(),
            bounds.bottom,
        );

        assert!(
            !fills_monitor(&elsewhere, &bounds),
            "frame on the neighbouring monitor of {bounds:?}",
        );
    }
}

#[test]
fn syncs_hidden_cloaked_windows_on_every_redraw() {
    assert!(should_sync_taskbar_visibility(
        &HideMethod::Cloak,
        false,
        &DisplayState::Hidden,
        false,
    ));
    assert!(should_sync_taskbar_visibility(
        &HideMethod::Cloak,
        false,
        &DisplayState::Hiding,
        false,
    ));
}

#[test]
fn adds_visible_taskbar_tabs_only_while_showing() {
    assert!(should_sync_taskbar_visibility(
        &HideMethod::Cloak,
        false,
        &DisplayState::Showing,
        true,
    ));
    assert!(!should_sync_taskbar_visibility(
        &HideMethod::Cloak,
        false,
        &DisplayState::Shown,
        true,
    ));
}

#[test]
fn respects_taskbar_and_hide_method_configuration() {
    assert!(!should_sync_taskbar_visibility(
        &HideMethod::Cloak,
        true,
        &DisplayState::Hidden,
        false,
    ));
    assert!(!should_sync_taskbar_visibility(
        &HideMethod::Hide,
        false,
        &DisplayState::Hidden,
        false,
    ));
}

const BOUNDS: Rect = Rect { left: 0, top: 0, right: 1920, bottom: 1080 };
const WORKING_AREA: Rect = Rect { left: 0, top: 0, right: 1920, bottom: 1032 };
const PLACE: Rect = Rect { left: 100, top: 50, right: 900, bottom: 650 };
const MONITOR: ContainerId = 50;
const SHOWN: ContainerId = 100;
const OUTGOING: ContainerId = 200;

fn window(
    id: ContainerId,
    workspace: ContainerId,
    state: WindowState,
    display_state: DisplayState,
) -> Container {
    Container {
        id,
        workspace: Some(workspace),
        monitor: Some(MONITOR),
        rect: Ok(PLACE),
        window: Some(Window {
            native: 10 * id as i64,
            state,
            display_state,
            native_properties: NativeWindowProperties {
                title: "".to_string(),
                class_name: None,
                process_name: "".to_string(),
                frame: PLACE,
                is_minimized: false,
                is_maximized: false,
                is_resizable: true,
                shadow_borders: None,
                read_at: 0,
            },
            placement: Ok(PLACE),
            has_active_drag: false,
            has_pending_dpi_adjustment: false,
        }),
    }
}

fn other(id: ContainerId, workspace: Option<ContainerId>) -> Container {
    Container { id, workspace, monitor: Some(MONITOR), rect: Ok(BOUNDS), window: None }
}

fn floating(shown_on_top: bool) -> WindowState {
    WindowState::Floating(FloatingStateConfig { shown_on_top })
}

fn fullscreen(maximized: bool, shown_on_top: bool) -> WindowState {
    WindowState::Fullscreen(FullscreenStateConfig { maximized, shown_on_top })
}

/// A workspace that is displayed, with the tiling windows 1 and 2 and the
/// floating window 3, and one that no longer is, with the tiling windows 4
/// and 5. Window 2 has focus, and was hidden until now like the rest of its
/// workspace.
fn state() -> WmState {
    WmState {
        os: TargetOs::Windows,
        is_paused: false,
        containers: vec![
            other(MONITOR, None),
            other(SHOWN, Some(SHOWN)),
            window(1, SHOWN, WindowState::Tiling, DisplayState::Hidden),
            window(2, SHOWN, WindowState::Tiling, DisplayState::Hidden),
            window(3, SHOWN, floating(false), DisplayState::Hidden),
            other(OUTGOING, Some(OUTGOING)),
            window(4, OUTGOING, WindowState::Tiling, DisplayState::Shown),
            window(5, OUTGOING, WindowState::Tiling, DisplayState::Shown),
        ],
        workspaces: vec![
            Workspace {
                id: SHOWN,
                name: "1".to_string(),
                is_displayed: true,
                descendants: vec![1, 2, 3],
                focus_order: vec![2, 3, 1],
            },
            Workspace {
                id: OUTGOING,
                name: "2".to_string(),
                is_displayed: false,
                descendants: vec![4, 5],
                focus_order: vec![5, 4],
            },
        ],
        monitors: vec![Monitor {
            id: MONITOR,
            bounds: BOUNDS,
            working_area: WORKING_AREA,
            rect: Ok(WORKING_AREA),
        }],
        monitors_by_hide_corner: vec![(MONITOR, HideCorner::BottomRight)],
        focused: Some(2),
        focus_order: vec![2, 3, 1, 5, 4],
        pending_sync: PendingSync {
            containers_to_redraw: vec![],
            windows_to_redraw: vec![],
            workspaces_to_reorder: vec![],
            needs_focus_update: false,
            needs_focused_effect_update: false,
            needs_all_effects_update: false,
            needs_cursor_jump: false,
        },
        prev_effects_window: None,
        windows_marked_fullscreen: HashSet::new(),
        is_focus_synced: true,
        stranded_focus_ticks: 0,
        stranded_focus_attempts: 0,
    }
}

fn effects(enabled: bool, alpha: u8) -> WindowEffectConfig {
    WindowEffectConfig {
        border: BorderEffectConfig { enabled, color: Color { r: alpha, g: 0, b: 0, a: 255 } },
        hide_title_bar: HideTitleBarEffectConfig { enabled },
        corner_style: CornerEffectConfig { enabled, style: CornerStyle::Rounded },
        transparency: TransparencyEffectConfig {
            enabled,
            opacity: OpacityValue::from_alpha(alpha),
        },
    }
}

fn config() -> UserConfig {
    UserConfig {
        general: GeneralConfig {
            cursor_jump: CursorJumpConfig {
                enabled: true,
                trigger: CursorJumpTrigger::MonitorFocus,
            },
            hide_method: HideMethod::Cloak,
            show_all_in_taskbar: false,
            restore_focus_on_shell: true,
        },
        window_effects: WindowEffectsConfig {
            focused_window: effects(true, 200),
            other_windows: effects(false, 100),
        },
    }
}

fn frame_of(state: &mut WmState, id: ContainerId) -> &mut Rect {
    let container = state.containers.iter_mut().find(|c| c.id == id).unwrap();
    &mut container.window.as_mut().unwrap().native_properties.frame
}

fn window_of(state: &mut WmState, id: ContainerId) -> &mut Window {
    let container = state.containers.iter_mut().find(|c| c.id == id).unwrap();
    container.window.as_mut().unwrap()
}

fn find(state: &WmState, id: ContainerId) -> &Container {
    state.containers.iter().find(|c| c.id == id).unwrap()
}

#[test]
fn a_frame_a_pixel_short_on_each_side_still_covers() {
    let bounds = BOUNDS;
    assert!(fills_monitor(&bounds.inset(1), &bounds));
    assert!(!fills_monitor(&bounds.inset(2), &bounds));
    assert!(covers_taskbar(&bounds.inset(1), &bounds, &WORKING_AREA));
}

#[test]
fn rects_know_their_size() {
    let rect = Rect::from_xy(10, 20, 30, 40);
    assert_eq!(rect, Rect::from_ltrb(10, 20, 40, 60));
    assert_eq!((rect.width(), rect.height()), (30, 40));
    assert_eq!(rect.inset(5), Rect::from_ltrb(15, 25, 35, 55));
    assert!(rect.contains_rect(&rect));
    assert!(!rect.inset(1).contains_rect(&rect));
}

#[test]
fn only_a_fullscreen_window_keeps_its_frame() {
    let mut state = state();
    *frame_of(&mut state, 1) = BOUNDS;
    assert!(!keeps_own_fullscreen_frame(find(&state, 1), &state));
    window_of(&mut state, 1).state = fullscreen(false, false);
    assert!(keeps_own_fullscreen_frame(find(&state, 1), &state));
    *frame_of(&mut state, 1) = WORKING_AREA;
    assert!(!keeps_own_fullscreen_frame(find(&state, 1), &state));
    assert!(!keeps_own_fullscreen_frame(find(&state, SHOWN), &state));
}

#[test]
fn marks_follow_the_frame_and_the_screen() {
    let mut state = state();
    *frame_of(&mut state, 4) = BOUNDS;
    let marked = WindowRef { id: 4, native: 40 };

    assert!(is_covering_taskbar(find(&state, 4), &state));
    assert_eq!(sync_fullscreen_mark(find(&state, 4), &state), Some(true));

    // As long as the shell could not be told, it is tried again.
    assert_eq!(finish_fullscreen_mark(&mut state, marked, true, false), None);
    assert_eq!(sync_fullscreen_mark(find(&state, 4), &state), Some(true));

    assert_eq!(
        finish_fullscreen_mark(&mut state, marked, true, true),
        Some(WmEvent::FullscreenChanged { fullscreen_id: 4, is_fullscreen: true })
    );
    assert_eq!(sync_fullscreen_mark(find(&state, 4), &state), None);

    window_of(&mut state, 4).display_state = DisplayState::Hiding;
    assert_eq!(sync_fullscreen_mark(find(&state, 4), &state), Some(false));
    assert_eq!(
        finish_fullscreen_mark(&mut state, marked, false, true),
        Some(WmEvent::FullscreenChanged { fullscreen_id: 4, is_fullscreen: false })
    );
    assert_eq!(sync_fullscreen_mark(find(&state, 4), &state), None);
    assert!(state.windows_marked_fullscreen.is_empty());
}

#[test]
fn windows_of_the_focused_kind_come_forward() {
    let mut state = state();
    state.pending_sync.workspaces_to_reorder = vec![OUTGOING, OUTGOING];
    let forward = windows_to_bring_to_front(find(&state, 2), &state).unwrap();
    assert_eq!(forward, vec![4, 5]);

    state.pending_sync.needs_focus_update = true;
    let forward = windows_to_bring_to_front(find(&state, 2), &state).unwrap();
    assert_eq!(forward, vec![4, 5, 1, 2]);

    state.workspaces[0].focus_order = vec![3, 2, 1];
    let forward = windows_to_bring_to_front(find(&state, 2), &state).unwrap();
    assert_eq!(forward, vec![4, 5, 3]);

    window_of(&mut state, 3).state = fullscreen(false, false);
    let forward = windows_to_bring_to_front(find(&state, 2), &state).unwrap();
    assert_eq!(forward, vec![4, 5]);

    state.workspaces[1].focus_order = vec![];
    let forward = windows_to_bring_to_front(find(&state, 2), &state).unwrap();
    assert_eq!(forward, Vec::<ContainerId>::new());
}

#[test]
fn without_a_workspace_nothing_comes_forward() {
    let state = state();
    let homeless = other(7, None);
    assert_eq!(
        windows_to_bring_to_front(&homeless, &state).err(),
        Some(WmError::NoWorkspace)
    );
    assert_eq!(WmError::NoWorkspace.message(), "No workspace.");
}

#[test]
fn windows_are_sorted_by_display_and_focus() {
    let mut state = state();
    assert_eq!(sort_for_redraw(&state, &vec![1, 2, 3, 4, 5]), vec![5, 4, 2, 3, 1]);

    // A window that was never focused comes first among its like, and two of
    // them stay as they are.
    state.focus_order = vec![2, 5];
    assert_eq!(sort_for_redraw(&state, &vec![3, 1, 2, 5, 4]), vec![4, 5, 3, 1, 2]);
}

fn redraw(update: &WindowUpdate) -> &Redraw {
    match update {
        WindowUpdate::Redraw(redraw) => redraw,
        WindowUpdate::Restack { .. } => panic!("unexpected restack"),
    }
}

#[test]
fn a_workspace_switch_reveals_before_it_hides() {
    let mut state = state();
    state.pending_sync.containers_to_redraw = vec![SHOWN, OUTGOING];
    state.pending_sync.windows_to_redraw = vec![1, 2, 3, 4, 5];
    state.pending_sync.needs_focus_update = true;
    assert!(are_redraws_in_range(&state, &config()));

    let plan = redraw_containers(&mut state, &config()).unwrap();

    assert_eq!(plan.failure, None);
    let redraws: Vec<&Redraw> = plan.updates.iter().map(redraw).collect();
    let summary: Vec<(ContainerId, WindowZOrder, DisplayState, bool, Option<bool>)> = redraws
        .iter()
        .map(|r| (r.window.id, r.z_order, r.display_state, r.is_visible, r.taskbar_visibility))
        .collect();
    assert_eq!(
        summary,
        vec![
            (1, WindowZOrder::AfterWindow(20), DisplayState::Showing, true, Some(true)),
            (3, WindowZOrder::Normal, DisplayState::Showing, true, Some(true)),
            (2, WindowZOrder::Normal, DisplayState::Showing, true, Some(true)),
            (4, WindowZOrder::Normal, DisplayState::Hiding, false, Some(false)),
            (5, WindowZOrder::Normal, DisplayState::Hiding, false, Some(false)),
        ]
    );
    for r in &redraws {
        assert_eq!(find(&state, r.window.id).window.as_ref().unwrap().display_state, r.display_state);
    }
}

#[test]
fn a_shown_window_stays_shown_and_keeps_its_tab() {
    let mut state = state();
    window_of(&mut state, 1).display_state = DisplayState::Shown;
    state.pending_sync.containers_to_redraw = vec![1];
    state.pending_sync.windows_to_redraw = vec![1, 7];

    let plan = redraw_containers(&mut state, &config()).unwrap();

    assert_eq!(plan.updates.len(), 1);
    let r = redraw(&plan.updates[0]);
    assert_eq!(r.display_state, DisplayState::Shown);
    assert_eq!(r.taskbar_visibility, None);
}

#[test]
fn windows_that_only_come_forward_are_restacked() {
    let mut state = state();
    state.pending_sync.workspaces_to_reorder = vec![SHOWN];
    state.pending_sync.windows_to_redraw = vec![3];

    let plan = redraw_containers(&mut state, &config()).unwrap();

    assert_eq!(plan.updates.len(), 3);
    assert_eq!(
        plan.updates[0],
        WindowUpdate::Restack {
            window: WindowRef { id: 1, native: 10 },
            z_order: WindowZOrder::AfterWindow(20),
        }
    );
    assert_eq!(redraw(&plan.updates[1]).window.id, 3);
    assert_eq!(
        plan.updates[2],
        WindowUpdate::Restack {
            window: WindowRef { id: 2, native: 20 },
            z_order: WindowZOrder::Normal,
        }
    );

    state.os = TargetOs::MacOs;
    let plan = redraw_containers(&mut state, &config()).unwrap();
    assert_eq!(plan.updates.len(), 1);
    assert_eq!(redraw(&plan.updates[0]).placement, Ok(Placement::SetFrame(PLACE)));
    assert_eq!(redraw(&plan.updates[0]).taskbar_visibility, None);
}

#[test]
fn windows_shown_on_top_are_topmost() {
    let mut state = state();
    window_of(&mut state, 3).state = floating(true);
    window_of(&mut state, 1).state = fullscreen(false, true);
    state.pending_sync.windows_to_redraw = vec![1, 3];

    let plan = redraw_containers(&mut state, &config()).unwrap();

    assert_eq!(redraw(&plan.updates[0]).z_order, WindowZOrder::TopMost);
    assert_eq!(redraw(&plan.updates[1]).z_order, WindowZOrder::TopMost);
}

#[test]
fn updates_end_at_a_window_that_belongs_nowhere() {
    let failure = |change: fn(&mut WmState)| {
        let mut state = state();
        state.pending_sync.windows_to_redraw = vec![1, 4];
        change(&mut state);
        let plan = redraw_containers(&mut state, &config()).unwrap();
        (plan.updates.len(), plan.failure)
    };

    assert_eq!(failure(|_| {}), (2, None));
    assert_eq!(
        failure(|state| state.containers[6].workspace = None),
        (1, Some(WmError::WindowHasNoWorkspace))
    );
    assert_eq!(
        failure(|state| state.containers[6].monitor = None),
        (1, Some(WmError::NoMonitor))
    );
    assert_eq!(
        failure(|state| state.monitors_by_hide_corner = vec![]),
        (0, Some(WmError::MonitorNotInHideCornerMap))
    );
    assert_eq!(WmError::WindowHasNoWorkspace.message(), "Window has no workspace.");
    assert_eq!(WmError::NoMonitor.message(), "No monitor.");
    assert_eq!(
        WmError::MonitorNotInHideCornerMap.message(),
        "Monitor not found in hide corner map."
    );
}

#[test]
fn hidden_windows_can_be_put_into_a_corner() {
    let mut config = config();
    config.general.hide_method = HideMethod::PlaceInCorner;
    let state = state();
    let place = |corner: HideCorner, is_visible: bool| {
        assert!(is_placement_in_range(find(&state, 4), corner, is_visible, &state, &config));
        reposition_window(
            find(&state, 4),
            corner,
            WindowZOrder::Normal,
            is_visible,
            &state,
            &config,
        )
    };

    assert_eq!(
        place(HideCorner::BottomRight, false),
        Ok(Placement::SetFrame(Rect::from_ltrb(1919, 1031, 2719, 1631)))
    );
    assert_eq!(
        place(HideCorner::BottomLeft, false),
        Ok(Placement::SetFrame(Rect::from_ltrb(-799, 1031, 1, 1631)))
    );
    assert!(matches!(place(HideCorner::BottomLeft, true), Ok(Placement::Position(_))));
}

#[test]
fn placements_out_of_range_are_noticed() {
    let mut config = config();
    config.general.hide_method = HideMethod::PlaceInCorner;
    let mut state = state();
    *frame_of(&mut state, 4) = Rect::from_ltrb(0, 0, i32::MAX, 10);
    state.pending_sync.windows_to_redraw = vec![4];
    assert!(!are_redraws_in_range(&state, &config));

    // Putting the same frame into the left corner leaves the range by no edge.
    state.monitors_by_hide_corner = vec![(MONITOR, HideCorner::BottomLeft)];
    assert!(are_redraws_in_range(&state, &config));

}

#[test]
fn only_monitors_that_windows_are_held_against_have_to_be_in_range() {
    let mut state = state();
    state.monitors[0].bounds = Rect::from_ltrb(i32::MAX, 0, 0, 0);
    state.pending_sync.containers_to_redraw = vec![1];
    state.pending_sync.windows_to_redraw = vec![1];
    assert!(are_redraws_in_range(&state, &config()));

    window_of(&mut state, 1).state = fullscreen(false, false);
    assert!(!are_redraws_in_range(&state, &config()));
    let failed = Err(WmError::NoMonitor);
    assert!(!is_sync_in_range(&state, &config(), SyncStage::Begin, &Ok(())));
    assert!(is_sync_in_range(&state, &config(), SyncStage::Begin, &failed));
    assert!(is_sync_in_range(&state, &config(), SyncStage::Redraw, &Ok(())));
    state.pending_sync.needs_focus_update = true;
    assert!(is_sync_in_range(&state, &config(), SyncStage::Begin, &Ok(())));
    assert!(!is_sync_in_range(&state, &config(), SyncStage::Focus, &Ok(())));
    state.focused = None;
    assert!(is_sync_in_range(&state, &config(), SyncStage::Focus, &Ok(())));

    state.focused = Some(2);
    state.os = TargetOs::MacOs;
    assert!(are_redraws_in_range(&state, &config()));
}

#[test]
fn a_window_is_held_against_its_monitor_once_it_is_placed() {
    let mut state = state();
    state.monitors[0].bounds = Rect::from_ltrb(i32::MAX, 0, 0, 0);
    let update = WindowUpdate::Redraw(Redraw {
        window: WindowRef { id: 4, native: 40 },
        z_order: WindowZOrder::Normal,
        display_state: DisplayState::Shown,
        is_visible: true,
        placement: Ok(Placement::SetFrame(PLACE)),
        taskbar_visibility: None,
    });
    let mut replies = UpdateReplies::new();
    assert!(is_update_in_range(&update, &replies, &state));
    replies.placement.record(PlacementStep::Frame, Outcome::Answered(true));
    assert!(!is_update_in_range(&update, &replies, &state));
    window_of(&mut state, 4).display_state = DisplayState::Hidden;
    assert!(is_update_in_range(&update, &replies, &state));
    assert_eq!(next_update_action(&update, &replies, &state), UpdateAction::Done);
}

#[test]
fn a_window_that_cannot_be_placed_says_why() {
    let mut config = config();
    config.general.hide_method = HideMethod::PlaceInCorner;
    let mut state = state();
    let place = |state: &WmState| {
        reposition_window(
            find(state, 4),
            HideCorner::BottomLeft,
            WindowZOrder::Normal,
            false,
            state,
            &config,
        )
    };

    state.containers[6].monitor = None;
    assert_eq!(place(&state), Err(PlacementError::NoMonitor));
    window_of(&mut state, 4).placement = Err("Window has no parent.".to_string());
    let no_rect = PlacementError::NoRect("Window has no parent.".to_string());
    assert_eq!(place(&state), Err(no_rect.clone()));
    assert_eq!(no_rect.message(), "Window has no parent.");
    assert_eq!(PlacementError::NoMonitor.message(), "No monitor.");
}

#[test]
fn a_window_being_dragged_is_only_resized() {
    let mut state = state();
    window_of(&mut state, 1).has_active_drag = true;
    let placement = reposition_window(
        find(&state, 1),
        HideCorner::BottomLeft,
        WindowZOrder::Normal,
        true,
        &state,
        &config(),
    );
    assert_eq!(placement, Ok(Placement::Resize { width: 800, height: 600 }));
}

#[test]
fn elsewhere_windows_are_given_a_frame_or_left_alone() {
    let mut state = state();
    state.os = TargetOs::Other;
    let placement = reposition_window(
        find(&state, 1),
        HideCorner::BottomLeft,
        WindowZOrder::Normal,
        true,
        &state,
        &config(),
    );
    assert_eq!(placement, Ok(Placement::Untouched));
    assert_eq!(
        next_placement_action(&Placement::Untouched, &PlacementReplies::new()),
        PlacementAction::Done
    );
}

fn positioning(state: WindowState) -> Positioning {
    Positioning {
        state,
        keeps_own_frame: false,
        rect: PLACE,
        z_order: WindowZOrder::TopMost,
        is_visible: true,
        hide_method: HideMethod::Cloak,
        has_pending_dpi_adjustment: false,
    }
}

fn flags(moves: bool, frame_changed: bool) -> SwpFlags {
    SwpFlags {
        no_activate: true,
        no_copy_bits: true,
        no_send_changing: true,
        async_window_pos: true,
        no_move: !moves,
        no_size: !moves,
        frame_changed,
    }
}

fn set_window_pos(flags: SwpFlags) -> PlacementCall {
    PlacementCall::SetWindowPos { z_order: WindowZOrder::TopMost, rect: PLACE, flags }
}

/// Places a window, answering every question by `answer` and failing at
/// `failing`, and gives the calls made and whether it was given up.
fn place(
    placement: Placement,
    answer: fn(PlacementCall) -> bool,
    failing: Option<PlacementStep>,
) -> (Vec<PlacementCall>, bool) {
    let mut replies = PlacementReplies::new();
    let mut calls = vec![];
    loop {
        match next_placement_action(&placement, &replies) {
            PlacementAction::Call(step, call) => {
                calls.push(call);
                let outcome = if failing == Some(step) {
                    Outcome::Failed
                } else {
                    Outcome::Answered(answer(call))
                };
                replies.record(step, outcome);
            }
            PlacementAction::GiveUp => return (calls, true),
            PlacementAction::Done => return (calls, false),
        }
    }
}

#[test]
fn a_tiling_window_is_moved_and_shown() {
    assert_eq!(
        place(Placement::Position(positioning(WindowState::Tiling)), |_| false, None),
        (
            vec![
                PlacementCall::IsMinimized,
                PlacementCall::IsMaximized,
                set_window_pos(flags(true, true)),
                PlacementCall::SetCloaked(false),
            ],
            false
        )
    );
}

#[test]
fn a_maximized_window_is_restored_before_it_is_moved() {
    let maximized = |call: PlacementCall| call == PlacementCall::IsMaximized;
    assert_eq!(
        place(Placement::Position(positioning(floating(false))), maximized, None),
        (
            vec![
                PlacementCall::IsMinimized,
                PlacementCall::IsMaximized,
                PlacementCall::Restore(PLACE),
                set_window_pos(flags(true, true)),
                PlacementCall::SetCloaked(false),
            ],
            false
        )
    );
    assert_eq!(
        place(Placement::Position(positioning(fullscreen(false, false))), maximized, None).0[..2],
        [PlacementCall::IsMaximized, PlacementCall::Restore(PLACE)]
    );
}

#[test]
fn a_minimized_window_is_only_minimized_and_hidden_or_shown() {
    let minimized = Positioning { is_visible: false, ..positioning(WindowState::Minimized) };
    assert_eq!(
        place(Placement::Position(minimized), |_| false, None),
        (
            vec![
                PlacementCall::IsMinimized,
                PlacementCall::Minimize,
                PlacementCall::SetCloaked(true),
            ],
            false
        )
    );
    assert_eq!(
        place(Placement::Position(minimized), |_| true, None).0,
        vec![PlacementCall::IsMinimized, PlacementCall::SetCloaked(true)]
    );
}

#[test]
fn a_maximized_fullscreen_window_is_maximized_if_it_can_be() {
    let can_be = |call: PlacementCall| call == PlacementCall::HasMaximizeBox;
    assert_eq!(
        place(Placement::Position(positioning(fullscreen(true, false))), can_be, None).0,
        vec![
            PlacementCall::HasMaximizeBox,
            PlacementCall::IsMaximized,
            PlacementCall::Maximize,
            set_window_pos(flags(true, false)),
            PlacementCall::SetCloaked(false),
        ]
    );
    assert_eq!(
        place(Placement::Position(positioning(fullscreen(true, false))), |_| false, None).0,
        vec![
            PlacementCall::HasMaximizeBox,
            set_window_pos(flags(true, true)),
            PlacementCall::SetCloaked(false),
        ]
    );
}

#[test]
fn a_window_that_keeps_its_frame_is_only_restacked() {
    let own = |maximized: bool| Positioning {
        keeps_own_frame: true,
        ..positioning(fullscreen(maximized, false))
    };
    assert_eq!(
        place(Placement::Position(own(false)), |_| true, None).0,
        vec![set_window_pos(flags(false, false)), PlacementCall::SetCloaked(false)]
    );
    assert_eq!(
        place(Placement::Position(own(true)), |_| true, None).0,
        vec![
            PlacementCall::HasMaximizeBox,
            set_window_pos(flags(false, false)),
            PlacementCall::SetCloaked(false),
        ]
    );
}

#[test]
fn a_window_off_by_its_dpi_is_moved_twice() {
    let adjusting = Positioning {
        has_pending_dpi_adjustment: true,
        ..positioning(WindowState::Tiling)
    };
    let calls = place(Placement::Position(adjusting), |_| false, None).0;
    assert_eq!(calls[2], set_window_pos(flags(true, true)));
    assert_eq!(calls[3], set_window_pos(flags(true, true)));
    assert_eq!(calls.len(), 5);
}

#[test]
fn windows_are_shown_and_hidden_where_they_are_not_cloaked() {
    let by_hiding = |is_visible: bool| Positioning {
        is_visible,
        hide_method: HideMethod::Hide,
        ..positioning(WindowState::Tiling)
    };
    let last = |is_visible: bool| {
        place(Placement::Position(by_hiding(is_visible)), |_| false, None).0.pop()
    };
    assert_eq!(last(true), Some(PlacementCall::Show));
    assert_eq!(last(false), Some(PlacementCall::Hide));
}

#[test]
fn a_failed_call_ends_the_placing() {
    let tiling = Placement::Position(positioning(WindowState::Tiling));
    assert_eq!(
        place(tiling, |_| false, Some(PlacementStep::MaximizedAtFirst)),
        (vec![PlacementCall::IsMinimized, PlacementCall::IsMaximized], true)
    );
    assert!(place(tiling, |_| false, Some(PlacementStep::Visibility)).1);
    assert_eq!(
        place(Placement::SetFrame(PLACE), |_| true, Some(PlacementStep::Frame)),
        (vec![PlacementCall::SetFrame(PLACE)], true)
    );
    assert_eq!(
        place(Placement::Resize { width: 3, height: 4 }, |_| true, None),
        (vec![PlacementCall::Resize { width: 3, height: 4 }], false)
    );
}

#[test]
fn a_redrawn_window_is_placed_then_marked_then_given_its_tab() {
    let mut state = state();
    *frame_of(&mut state, 4) = BOUNDS;
    let update = WindowUpdate::Redraw(Redraw {
        window: WindowRef { id: 4, native: 40 },
        z_order: WindowZOrder::Normal,
        display_state: DisplayState::Shown,
        is_visible: true,
        placement: Ok(Placement::SetFrame(PLACE)),
        taskbar_visibility: Some(true),
    });
    let mut replies = UpdateReplies::new();

    assert_eq!(
        next_update_action(&update, &replies, &state),
        UpdateAction::Place(PlacementStep::Frame, PlacementCall::SetFrame(PLACE))
    );
    // A window that could not be placed is marked all the same.
    replies.placement.record(PlacementStep::Frame, Outcome::Failed);
    assert_eq!(
        next_update_action(&update, &replies, &state),
        UpdateAction::MarkFullscreen(true)
    );
    replies.mark = Outcome::Failed;
    assert_eq!(
        next_update_action(&update, &replies, &state),
        UpdateAction::SetTaskbarVisibility(true)
    );
    replies.taskbar_visibility = Outcome::Answered(true);
    assert_eq!(next_update_action(&update, &replies, &state), UpdateAction::Done);
}

#[test]
fn a_restacked_window_is_only_restacked() {
    let state = state();
    let update = WindowUpdate::Restack {
        window: WindowRef { id: 4, native: 40 },
        z_order: WindowZOrder::AfterWindow(50),
    };
    let mut replies = UpdateReplies::new();
    assert_eq!(
        next_update_action(&update, &replies, &state),
        UpdateAction::SetZOrder(WindowZOrder::AfterWindow(50))
    );
    replies.restack = Outcome::Failed;
    assert_eq!(next_update_action(&update, &replies, &state), UpdateAction::Done);
}

#[test]
fn effects_of_windows_with_and_without_focus() {
    let mut calls = vec![];
    apply_window_effects(10, true, TargetOs::Windows, &config(), &mut calls);
    let red = Some(Color { r: 200, g: 0, b: 0, a: 255 });
    assert_eq!(
        calls,
        vec![
            EffectCall::SetBorderColor { window: 10, color: red },
            EffectCall::SetBorderColorLater { window: 10, color: red, delay_ms: 50 },
            EffectCall::SetTitleBarVisibility { window: 10, visible: false },
            EffectCall::SetCornerStyle { window: 10, style: CornerStyle::Rounded },
            EffectCall::SetTransparency { window: 10, opacity: OpacityValue::from_alpha(200) },
        ]
    );

    let mut calls = vec![];
    apply_window_effects(10, false, TargetOs::Windows, &config(), &mut calls);
    assert_eq!(
        calls,
        vec![
            EffectCall::SetBorderColor { window: 10, color: None },
            EffectCall::SetBorderColorLater { window: 10, color: None, delay_ms: 50 },
            EffectCall::SetTitleBarVisibility { window: 10, visible: true },
            EffectCall::SetCornerStyle { window: 10, style: CornerStyle::Default },
            EffectCall::SetTransparency { window: 10, opacity: OpacityValue::from_alpha(255) },
        ]
    );
}

#[test]
fn effects_that_are_off_are_left_alone() {
    let mut off = config();
    off.window_effects.focused_window = effects(false, 1);
    let mut calls = vec![];
    apply_window_effects(10, true, TargetOs::Windows, &off, &mut calls);
    assert!(calls.is_empty());

    apply_window_effects(10, true, TargetOs::MacOs, &config(), &mut calls);
    assert!(calls.is_empty());
}

fn touched(calls: &[EffectCall]) -> Vec<i64> {
    calls
        .iter()
        .filter_map(|call| match call {
            EffectCall::SetBorderColor { window, .. } => Some(*window),
            _ => None,
        })
        .collect()
}

#[test]
fn the_window_that_lost_focus_loses_its_effects() {
    let mut state = state();
    state.prev_effects_window = Some(WindowRef { id: 1, native: 10 });
    assert_eq!(touched(&update_effects(&mut state, &config())), vec![20, 10]);
    assert_eq!(state.prev_effects_window, Some(WindowRef { id: 2, native: 20 }));

    // The window with focus does not lose its effects to itself.
    assert_eq!(touched(&update_effects(&mut state, &config())), vec![20]);

    state.pending_sync.needs_all_effects_update = true;
    assert_eq!(touched(&update_effects(&mut state, &config())), vec![20, 10, 30, 40, 50]);

    state.focused = Some(SHOWN);
    state.pending_sync.needs_all_effects_update = false;
    assert_eq!(touched(&update_effects(&mut state, &config())), vec![20]);
    assert_eq!(state.prev_effects_window, None);
}

#[test]
fn focus_is_carried_over_step_by_step() {
    let state = state();
    let focused = find(&state, 2);
    let mut replies = FocusReplies::new();
    let next = |replies: &FocusReplies| sync_focus(focused, TargetOs::Windows, &config(), replies);

    assert_eq!(next(&replies), FocusAction::AskForeground);
    replies.foreground = Reading::Read(77);
    assert_eq!(next(&replies), FocusAction::FocusWindow(20));
    replies.focus = Outcome::Failed;
    assert_eq!(next(&replies), FocusAction::ScheduleConvergence { target: 20, previous: 77 });
    replies.convergence = Outcome::Answered(true);
    assert_eq!(
        next(&replies),
        FocusAction::Announce(WmEvent::FocusChanged { focused_container: 2 })
    );
    replies.announcement = Outcome::Answered(true);
    assert_eq!(next(&replies), FocusAction::Done);
    replies.announcement = Outcome::Failed;
    assert_eq!(next(&replies), FocusAction::Failed);
    assert_eq!(WmError::EventFailed("No parent.".to_string()).message(), "No parent.");
}

#[test]
fn focus_without_convergence() {
    let state = state();
    let moved = FocusReplies { focus: Outcome::Answered(true), ..FocusReplies::new() };
    let announced = |id: ContainerId| {
        FocusAction::Announce(WmEvent::FocusChanged { focused_container: id })
    };

    // A workspace has the desktop focused, and nothing to converge to.
    let workspace = find(&state, SHOWN);
    assert_eq!(
        sync_focus(workspace, TargetOs::MacOs, &config(), &FocusReplies::new()),
        FocusAction::ResetFocus
    );
    let known = FocusReplies { foreground: Reading::Read(77), ..moved };
    assert_eq!(sync_focus(workspace, TargetOs::Windows, &config(), &known), announced(SHOWN));

    let unknown = FocusReplies { foreground: Reading::Failed, ..moved };
    let window = find(&state, 2);
    assert_eq!(sync_focus(window, TargetOs::Windows, &config(), &unknown), announced(2));

    let mut disabled = config();
    disabled.general.restore_focus_on_shell = false;
    assert_eq!(sync_focus(window, TargetOs::Windows, &disabled, &known), announced(2));
    assert_eq!(sync_focus(window, TargetOs::MacOs, &config(), &moved), announced(2));
}

#[test]
fn the_cursor_jumps_to_another_monitor_only() {
    let state = state();
    let focused = find(&state, 2);
    let jump = |cursor: Reading<ContainerId>| jump_cursor(focused, &state, &config(), cursor);

    assert_eq!(jump(Reading::Unread), Ok(CursorJump::LocateCursor));
    assert_eq!(jump(Reading::Failed), Ok(CursorJump::Stay));
    assert_eq!(jump(Reading::Read(MONITOR)), Ok(CursorJump::Stay));
    assert_eq!(jump(Reading::Read(51)), Ok(CursorJump::ToCenterOf(WORKING_AREA)));
}

#[test]
fn a_monitor_without_a_rect_says_why() {
    let mut state = state();
    state.monitors[0].rect = Err("Monitor is gone.".to_string());
    assert_eq!(
        jump_cursor(find(&state, 2), &state, &config(), Reading::Read(51)),
        Err(WmError::RectUnavailable("Monitor is gone.".to_string()))
    );
}

#[test]
fn the_cursor_can_jump_to_the_window() {
    let mut config = config();
    config.general.cursor_jump.trigger = CursorJumpTrigger::WindowFocus;
    let mut state = state();
    assert_eq!(
        jump_cursor(find(&state, 2), &state, &config, Reading::Unread),
        Ok(CursorJump::ToCenterOf(PLACE))
    );
    state.containers[3].rect = Err("Window has no parent.".to_string());
    let no_rect = WmError::RectUnavailable("Window has no parent.".to_string());
    assert_eq!(
        jump_cursor(find(&state, 2), &state, &config, Reading::Unread),
        Err(no_rect.clone())
    );
    assert_eq!(no_rect.message(), "Window has no parent.");
}

#[test]
fn the_cursor_cannot_jump_without_a_monitor() {
    let mut state = state();
    state.containers[3].monitor = None;
    assert_eq!(
        jump_cursor(find(&state, 2), &state, &config(), Reading::Unread),
        Err(WmError::NoMonitor)
    );
}

/// Runs a sync whose jobs all succeed, and lists them.
fn sync(state: &mut WmState, config: &UserConfig) -> (Vec<&'static str>, Result<(), WmError>) {
    let mut jobs = vec![];
    let mut done = SyncStage::Begin;
    loop {
        assert!(is_sync_in_range(state, config, done, &Ok(())));
        let (stage, job) = platform_sync(state, config, done, Ok(()));
        done = stage;
        match job {
            SyncJob::SyncFocus => jobs.push("focus"),
            SyncJob::Redraw(_) => jobs.push("redraw"),
            SyncJob::JumpCursor => jobs.push("cursor"),
            SyncJob::ApplyEffects(_) => jobs.push("effects"),
            SyncJob::Finish(result) => return (jobs, result),
        }
    }
}

#[test]
fn a_sync_does_what_is_pending_in_order() {
    let mut state = state();
    assert_eq!(sync(&mut state, &config()), (vec![], Ok(())));

    state.pending_sync.needs_focus_update = true;
    state.pending_sync.containers_to_redraw = vec![1];
    state.pending_sync.windows_to_redraw = vec![1];
    state.pending_sync.needs_cursor_jump = true;
    state.pending_sync.needs_focused_effect_update = true;
    assert_eq!(
        sync(&mut state, &config()),
        (vec!["focus", "redraw", "cursor", "effects"], Ok(()))
    );
    assert!(!state.pending_sync.needs_focus_update);
    assert!(state.pending_sync.containers_to_redraw.is_empty());
    assert!(state.pending_sync.windows_to_redraw.is_empty());
    assert_eq!(sync(&mut state, &config()), (vec![], Ok(())));

    state.pending_sync.workspaces_to_reorder = vec![SHOWN];
    state.pending_sync.needs_cursor_jump = true;
    state.pending_sync.needs_all_effects_update = true;
    let mut still = config();
    still.general.cursor_jump.enabled = false;
    assert_eq!(sync(&mut state, &still), (vec!["redraw", "effects"], Ok(())));
}

#[test]
fn a_failed_job_keeps_what_is_pending() {
    let failure = WmError::EventFailed("No parent.".to_string());
    let mut state = state();
    state.pending_sync.needs_focus_update = true;
    state.pending_sync.needs_cursor_jump = true;
    let (stage, job) = platform_sync(&mut state, &config(), SyncStage::Begin, Ok(()));
    assert!(matches!(job, SyncJob::SyncFocus));
    let (stage, job) = platform_sync(&mut state, &config(), stage, Err(failure.clone()));
    assert!(matches!(stage, SyncStage::Finished));
    assert!(matches!(job, SyncJob::Finish(Err(err)) if err == failure));
    assert!(state.pending_sync.needs_focus_update);
    assert!(state.pending_sync.needs_cursor_jump);
}

#[test]
fn a_sync_needs_something_focused() {
    let mut state = state();
    state.focused = None;
    state.pending_sync.needs_focus_update = true;
    assert_eq!(sync(&mut state, &config()), (vec![], Err(WmError::NoFocusedContainer)));

    state.focused = Some(MONITOR);
    state.pending_sync.needs_focus_update = false;
    state.pending_sync.containers_to_redraw = vec![1];
    assert_eq!(sync(&mut state, &config()), (vec![], Err(WmError::NoWorkspace)));
    assert_eq!(state.pending_sync.containers_to_redraw, vec![1]);
}
