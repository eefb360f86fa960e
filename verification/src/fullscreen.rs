//! Which windows are drawn over the taskbar, and what the shell is told of it.

use vstd::prelude::*;

use crate::rect::Rect;
use crate::state::{
    Container, ContainerId, DisplayState, Monitor, Window, WindowId, WindowRef, WindowState, WmState,
};

verus! {

broadcast use vstd::std_specs::hash::group_hash_axioms;

/// Something that listeners are told of.
#[derive(PartialEq, Eq, Structural, Clone, Copy, Debug)]
pub enum WmEvent {
    FocusChanged { focused_container: ContainerId },
    FullscreenChanged { fullscreen_id: ContainerId, is_fullscreen: bool },
}

/// Whether a frame reaches over the whole of a monitor, give or take a pixel.
pub open spec fn filled_by(frame: Rect, bounds: Rect) -> bool {
    frame.encloses_inset(bounds, 1)
}

/// Whether a frame reaches over the whole of a monitor on which the taskbar
/// reserves a strip.
pub open spec fn taskbar_covered_by(frame: Rect, bounds: Rect, working_area: Rect) -> bool {
    bounds != working_area && filled_by(frame, bounds)
}

/// Gets whether a window's frame is drawn over the taskbar.
///
/// This is a question about geometry, not about window state. An application
/// entering its own fullscreen from a maximized window keeps the native
/// maximized flag, so the window manager goes on holding it in a *maximized*
/// fullscreen while its frame grows from the working area to the whole
/// monitor. The taskbar lives in the difference between those two rects, so
/// that is what gets measured.
pub fn covers_taskbar(frame: &Rect, bounds: &Rect, working_area: &Rect) -> (r: bool)
    requires
        *bounds != *working_area ==> bounds.inset_fits(1),
    ensures
        r == taskbar_covered_by(*frame, *bounds, *working_area),
{
    // A monitor whose working area is its full bounds has no taskbar strip to
    // cover: it is on another monitor, or set to auto-hide.
    *bounds != *working_area && frame.contains_rect(&bounds.inset(1))
}

/// Gets whether a window has already placed itself over the whole monitor.
///
/// An application in its own fullscreen has put its frame exactly where the
/// window manager would put it. Nothing about such a window needs moving.
pub fn fills_monitor(frame: &Rect, bounds: &Rect) -> (r: bool)
    requires
        bounds.inset_fits(1),
    ensures
        r == filled_by(*frame, *bounds),
{
    // Inset so that a frame matching the monitor exactly still counts.
    frame.contains_rect(&bounds.inset(1))
}

impl WmState {
    /// Whether it can be told if a window has taken its whole monitor: where it
    /// is in a fullscreen state, the bounds of its monitor can be drawn in by a
    /// pixel.
    pub open spec fn own_frame_fits(self, c: Container) -> bool {
        c.window matches Some(w) ==> (w.state is Fullscreen ==> (self.monitor_of(c) matches Some(m)
            ==> m.bounds.inset_fits(1)))
    }

    /// Whether it can be told if a window covers the taskbar: where it is on
    /// screen, on a monitor on which the taskbar reserves a strip, the bounds
    /// of the monitor can be drawn in by a pixel.
    pub open spec fn covering_fits(self, c: Container) -> bool {
        c.window matches Some(w) ==> (w.display_state.visible() ==> (self.monitor_of(
            c,
        ) matches Some(m) ==> (m.bounds != m.working_area ==> m.bounds.inset_fits(1))))
    }

    /// Whether the window manager leaves a window where it is.
    pub open spec fn keeps_own_frame(self, c: Container) -> bool {
        match c.window {
            Some(w) => {
                &&& w.state is Fullscreen
                &&& self.monitor_of(c) matches Some(m)
                &&& filled_by(w.native_properties.frame, m.bounds)
            },
            None => false,
        }
    }

    /// Whether a window is on screen and drawn over its monitor's taskbar.
    pub open spec fn taskbar_covered(self, c: Container) -> bool {
        match c.window {
            Some(w) => {
                &&& w.display_state.visible()
                &&& self.monitor_of(c) matches Some(m)
                &&& taskbar_covered_by(w.native_properties.frame, m.bounds, m.working_area)
            },
            None => false,
        }
    }

    /// Whether the shell was last told that a window is fullscreen.
    pub open spec fn marked(self, native: WindowId) -> bool {
        self.windows_marked_fullscreen@.contains(native)
    }
}

/// Whether it can be told if a window has taken its whole monitor without
/// leaving the coordinate range.
pub fn is_own_frame_in_range(container: &Container, state: &WmState) -> (r: bool)
    ensures
        r == state.own_frame_fits(*container),
{
    match (&container.window, state.containing_monitor(container)) {
        (Some(window), Some(monitor)) => {
            !matches!(window.state, WindowState::Fullscreen(_)) || monitor.bounds.is_inset_in_range(
                1,
            )
        },
        _ => true,
    }
}

/// Whether it can be told if a window covers the taskbar without leaving the
/// coordinate range.
pub fn is_covering_in_range(container: &Container, state: &WmState) -> (r: bool)
    ensures
        r == state.covering_fits(*container),
{
    match (&container.window, state.containing_monitor(container)) {
        (Some(window), Some(monitor)) => {
            !window.display_state.is_visible() || monitor.bounds == monitor.working_area
                || monitor.bounds.is_inset_in_range(1)
        },
        _ => true,
    }
}

/// Gets whether a window is one the window manager should leave where it is:
/// it is in a fullscreen state and has already taken its whole monitor.
pub fn keeps_own_fullscreen_frame(container: &Container, state: &WmState) -> (r: bool)
    requires
        state.own_frame_fits(*container),
    ensures
        r == state.keeps_own_frame(*container),
{
    match &container.window {
        Some(window) => {
            if !matches!(window.state, WindowState::Fullscreen(_)) {
                return false;
            }
            match state.containing_monitor(container) {
                Some(monitor) => fills_monitor(&window.native_properties.frame, &monitor.bounds),
                None => false,
            }
        },
        None => false,
    }
}

/// Gets whether a window is on screen and drawn over its monitor's taskbar.
///
/// This is what the shell is told, and so also what has to still hold before a
/// lost mark is worth re-asserting.
pub fn is_covering_taskbar(container: &Container, state: &WmState) -> (r: bool)
    requires
        state.covering_fits(*container),
    ensures
        r == state.taskbar_covered(*container),
{
    match &container.window {
        Some(window) => {
            if !window.display_state.is_visible() {
                return false;
            }
            match state.containing_monitor(container) {
                Some(monitor) => covers_taskbar(
                    &window.native_properties.frame,
                    &monitor.bounds,
                    &monitor.working_area,
                ),
                None => false,
            }
        },
        None => false,
    }
}

/// What the shell has to be told of a window, where that differs from what it
/// was last told.
pub open spec fn mark_owed(state: WmState, c: Container) -> Option<bool> {
    match c.window {
        Some(w) => if state.taskbar_covered(c) == state.marked(w.native) {
            None
        } else {
            Some(state.taskbar_covered(c))
        },
        None => None,
    }
}

/// The windows marked with the shell, once it has been told of one more.
pub open spec fn with_mark(
    marks: Set<WindowId>,
    native: WindowId,
    is_fullscreen: bool,
) -> Set<WindowId> {
    if is_fullscreen {
        marks.insert(native)
    } else {
        marks.remove(native)
    }
}

/// Gets whether a window has to be marked as fullscreen with the shell
/// (`Some(true)`) or unmarked (`Some(false)`), which is whenever that differs
/// from what the shell was last told.
///
/// A window cloaked on a hidden workspace keeps its fullscreen frame, but
/// covers nothing, so the mark is dropped as it hides and re-asserted as it
/// shows. Re-asserting matters: the shell ignores a mark that repeats what it
/// already holds.
pub fn sync_fullscreen_mark(container: &Container, state: &WmState) -> (r: Option<bool>)
    requires
        state.covering_fits(*container),
    ensures
        r == mark_owed(*state, *container),
{
    match &container.window {
        Some(window) => {
            let is_fullscreen = is_covering_taskbar(container, state);
            if is_fullscreen == state.windows_marked_fullscreen.contains(&window.native) {
                None
            } else {
                Some(is_fullscreen)
            }
        },
        None => None,
    }
}

/// Takes note of what came of telling the shell whether a window is
/// fullscreen, and gives the event to broadcast.
///
/// Where the shell could not be told, nothing is noted, so that it is tried
/// again.
pub fn finish_fullscreen_mark(
    state: &mut WmState,
    window: WindowRef,
    is_fullscreen: bool,
    succeeded: bool,
) -> (r: Option<WmEvent>)
    ensures
        *final(state) == (WmState {
            windows_marked_fullscreen: final(state).windows_marked_fullscreen,
            ..*old(state)
        }),
        !succeeded ==> r is None && *final(state) == *old(state),
        succeeded ==> {
            &&& r == Some(
                WmEvent::FullscreenChanged { fullscreen_id: window.id, is_fullscreen },
            )
            &&& final(state).windows_marked_fullscreen@ == with_mark(
                old(state).windows_marked_fullscreen@,
                window.native,
                is_fullscreen,
            )
        },
{
    if !succeeded {
        return None;
    }
    if is_fullscreen {
        state.windows_marked_fullscreen.insert(window.native);
    } else {
        state.windows_marked_fullscreen.remove(&window.native);
    }
    Some(WmEvent::FullscreenChanged { fullscreen_id: window.id, is_fullscreen })
}

/// A frame that covers the taskbar fills its monitor, and a frame that reaches
/// at least as far as one that covers the taskbar covers it too.
pub proof fn law_covering_grows_with_the_frame(
    frame: Rect,
    larger: Rect,
    bounds: Rect,
    working_area: Rect,
)
    requires
        taskbar_covered_by(frame, bounds, working_area),
        larger.encloses_inset(frame, 0),
    ensures
        filled_by(frame, bounds),
        taskbar_covered_by(larger, bounds, working_area),
{
}

/// A frame at the bounds of a monitor, or past them on every side, covers the
/// taskbar of a monitor that has one, whichever edge it is on.
pub proof fn law_frame_past_the_bounds_covers(
    frame: Rect,
    bounds: Rect,
    working_area: Rect,
)
    requires
        frame.encloses_inset(bounds, 0),
    ensures
        filled_by(frame, bounds),
        taskbar_covered_by(frame, bounds, working_area) <==> bounds != working_area,
{
}

/// A frame that runs past the working area by no more than its resize border
/// neither fills the monitor nor covers the taskbar, wherever the strip that
/// the taskbar reserves is thicker than that border and a pixel.
pub proof fn law_maximized_frame_does_not_cover(
    frame: Rect,
    bounds: Rect,
    working_area: Rect,
    border: int,
)
    requires
        working_area.encloses_inset(frame, border),
        ({
            ||| working_area.left - bounds.left > border + 1
            ||| working_area.top - bounds.top > border + 1
            ||| bounds.right - working_area.right > border + 1
            ||| bounds.bottom - working_area.bottom > border + 1
        }),
    ensures
        !filled_by(frame, bounds),
        !taskbar_covered_by(frame, bounds, working_area),
{
}

/// Nothing covers a taskbar that reserves no space.
pub proof fn law_nothing_covers_an_auto_hidden_taskbar(frame: Rect, bounds: Rect)
    ensures
        !taskbar_covered_by(frame, bounds, bounds),
{
}

/// Once the shell has been told what it was owed, it is owed nothing more, and
/// what it is owed of other windows has not changed.
pub proof fn law_mark_settles(before: WmState, after: WmState, c: Container, other: Container)
    requires
        mark_owed(before, c) is Some,
        c.window is Some,
        after == (WmState {
            windows_marked_fullscreen: after.windows_marked_fullscreen,
            ..before
        }),
        after.windows_marked_fullscreen@ == with_mark(
            before.windows_marked_fullscreen@,
            c.window->0.native,
            mark_owed(before, c)->0,
        ),
        other.window matches Some(w) ==> w.native != c.window->0.native,
    ensures
        mark_owed(after, c) is None,
        after.marked(c.window->0.native) == after.taskbar_covered(c),
        mark_owed(after, other) == mark_owed(before, other),
{
}

/// A window that is out of sight is owed nothing but the end of its mark.
pub proof fn law_hidden_window_loses_its_mark(state: WmState, c: Container)
    requires
        c.window matches Some(w) && !w.display_state.visible(),
    ensures
        mark_owed(state, c) == if state.marked(c.window->0.native) {
            Some(false)
        } else {
            None
        },
{
}

/// Whether a frame reaches, on every side, to within a pixel of the edge of a
/// monitor or past it.
pub open spec fn reaches_every_edge(frame: Rect, bounds: Rect) -> bool {
    &&& frame.left <= bounds.left + 1
    &&& frame.top <= bounds.top + 1
    &&& frame.right >= bounds.right - 1
    &&& frame.bottom >= bounds.bottom - 1
}

/// The shell is owed nothing of a window just if it was last told the truth:
/// that the window is on screen or about to be, on a monitor with a strip
/// reserved for the taskbar, and reaches every edge of that monitor. Otherwise
/// it is owed that truth. Whether the window is shown or only about to be makes
/// no difference, nor does the state that the window manager holds it in.
pub proof fn law_shell_is_owed_the_truth(state: WmState, c: Container, w: Window, m: Monitor)
    requires
        c.window == Some(w),
        state.monitor_of(c) == Some(m),
    ensures
        ({
            let on_screen = w.display_state == DisplayState::Shown || w.display_state
                == DisplayState::Showing;
            let covers = on_screen && m.bounds != m.working_area && reaches_every_edge(
                w.native_properties.frame,
                m.bounds,
            );
            let told = state.windows_marked_fullscreen@.contains(w.native);
            &&& mark_owed(state, c) is None <==> told == covers
            &&& mark_owed(state, c) is Some ==> mark_owed(state, c) == Some(covers)
            &&& covers && !told ==> mark_owed(state, c) == Some(true)
            &&& !covers && told ==> mark_owed(state, c) == Some(false)
        }),
{
}

/// A window on no monitor covers nothing, and what is no window is never marked.
pub proof fn law_windows_without_a_monitor_cover_nothing(state: WmState, c: Container)
    ensures
        c.window is None ==> mark_owed(state, c) is None && !state.keeps_own_frame(c),
        c.window matches Some(w) ==> (state.monitor_of(c) is None ==> {
            &&& !state.keeps_own_frame(c)
            &&& mark_owed(state, c) == if state.windows_marked_fullscreen@.contains(w.native) {
                Some(false)
            } else {
                None
            }
        }),
{
}

/// A window keeps its own frame just if it is held in a fullscreen state, however
/// that is configured, and reaches every edge of its monitor. Neither the
/// taskbar nor whether the window is on screen has a say in it.
pub proof fn law_fullscreen_window_over_its_monitor_keeps_its_frame(
    state: WmState,
    c: Container,
    w: Window,
    m: Monitor,
)
    requires
        c.window == Some(w),
        state.monitor_of(c) == Some(m),
    ensures
        state.keeps_own_frame(c) <==> w.state is Fullscreen && reaches_every_edge(
            w.native_properties.frame,
            m.bounds,
        ),
{
}

/// Telling the shell of one window changes what it holds of that window, and of
/// no other.
pub proof fn law_one_mark_leaves_the_others(
    marks: Set<WindowId>,
    native: WindowId,
    is_fullscreen: bool,
    other: WindowId,
)
    ensures
        with_mark(marks, native, is_fullscreen).contains(native) == is_fullscreen,
        other != native ==> with_mark(marks, native, is_fullscreen).contains(other)
            == marks.contains(other),
{
}

/// Whether every edge of a rect lies within a thousand million pixels.
pub open spec fn is_of_ordinary_size(rect: Rect) -> bool {
    &&& -1_000_000_000 <= rect.left <= 1_000_000_000
    &&& -1_000_000_000 <= rect.top <= 1_000_000_000
    &&& -1_000_000_000 <= rect.right <= 1_000_000_000
    &&& -1_000_000_000 <= rect.bottom <= 1_000_000_000
}

/// Windows on monitors of ordinary size can always be held against them.
pub proof fn law_ordinary_monitors_can_be_measured(state: WmState, c: Container)
    requires
        state.monitor_of(c) matches Some(m) ==> is_of_ordinary_size(m.bounds),
    ensures
        state.own_frame_fits(c),
        state.covering_fits(c),
{
}

} // verus!
