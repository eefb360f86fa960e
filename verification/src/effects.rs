//! The effects given to windows with and without focus.

use vstd::prelude::*;

use crate::config::{Color, CornerStyle, OpacityValue, UserConfig, WindowEffectConfig};
use crate::state::{Container, ContainerId, TargetOs, WindowId, WindowRef, WmState};

verus! {

/// How long after a border colour is set it is set again, in milliseconds.
/// This better handles windows that change it themselves.
pub const BORDER_REAPPLY_DELAY_MS: u64 = 50;

/// An effect given to a window.
#[derive(PartialEq, Eq, Clone, Copy, Debug)]
pub enum EffectCall {
    /// Set the border colour, or take it away.
    SetBorderColor { window: WindowId, color: Option<Color> },
    /// Set the border colour, or take it away, after a delay.
    SetBorderColorLater { window: WindowId, color: Option<Color>, delay_ms: u64 },
    SetTitleBarVisibility { window: WindowId, visible: bool },
    SetCornerStyle { window: WindowId, style: CornerStyle },
    SetTransparency { window: WindowId, opacity: OpacityValue },
}

/// The border colour that a window is given.
pub open spec fn border_color(effects: WindowEffectConfig) -> Option<Color> {
    if effects.border.enabled {
        Some(effects.border.color)
    } else {
        None
    }
}

/// The corner style that a window is given.
pub open spec fn corner_style(effects: WindowEffectConfig) -> CornerStyle {
    if effects.corner_style.enabled {
        effects.corner_style.style
    } else {
        CornerStyle::Default
    }
}

/// The opacity that a window is given.
pub open spec fn opacity(effects: WindowEffectConfig) -> OpacityValue {
    if effects.transparency.enabled {
        effects.transparency.opacity
    } else {
        OpacityValue { alpha: u8::MAX }
    }
}

/// The calls that set the border of a window.
pub open spec fn border_calls(window: WindowId, effects: WindowEffectConfig) -> Seq<EffectCall> {
    let color = border_color(effects);
    seq![
        EffectCall::SetBorderColor { window, color },
        EffectCall::SetBorderColorLater { window, color, delay_ms: BORDER_REAPPLY_DELAY_MS },
    ]
}

/// `calls` where `enabled`, and otherwise none.
pub open spec fn calls_if(enabled: bool, calls: Seq<EffectCall>) -> Seq<EffectCall> {
    if enabled {
        calls
    } else {
        Seq::empty()
    }
}

/// The calls that give a window its effects.
///
/// An effect that neither windows with focus nor other windows are given is
/// left alone.
pub open spec fn effect_calls(
    window: WindowId,
    is_focused: bool,
    os: TargetOs,
    config: UserConfig,
) -> Seq<EffectCall> {
    let focused = config.window_effects.focused_window;
    let other = config.window_effects.other_windows;
    let effects = if is_focused {
        focused
    } else {
        other
    };
    if os != TargetOs::Windows {
        Seq::empty()
    } else {
        calls_if(focused.border.enabled || other.border.enabled, border_calls(window, effects))
            + calls_if(
            focused.hide_title_bar.enabled || other.hide_title_bar.enabled,
            seq![
                EffectCall::SetTitleBarVisibility {
                    window,
                    visible: !effects.hide_title_bar.enabled,
                },
            ],
        ) + calls_if(
            focused.corner_style.enabled || other.corner_style.enabled,
            seq![EffectCall::SetCornerStyle { window, style: corner_style(effects) }],
        ) + calls_if(
            focused.transparency.enabled || other.transparency.enabled,
            seq![EffectCall::SetTransparency { window, opacity: opacity(effects) }],
        )
    }
}

/// Sets the border of a window.
fn apply_border_effect(
    window: WindowId,
    effect_config: &WindowEffectConfig,
    calls: &mut Vec<EffectCall>,
)
    ensures
        final(calls)@ == old(calls)@ + border_calls(window, *effect_config),
{
    let color = if effect_config.border.enabled {
        Some(effect_config.border.color)
    } else {
        None
    };
    calls.push(EffectCall::SetBorderColor { window, color });
    calls.push(
        EffectCall::SetBorderColorLater { window, color, delay_ms: BORDER_REAPPLY_DELAY_MS },
    );
}

/// Shows the title bar of a window, or hides it.
fn apply_hide_title_bar_effect(
    window: WindowId,
    effect_config: &WindowEffectConfig,
    calls: &mut Vec<EffectCall>,
)
    ensures
        final(calls)@ == old(calls)@.push(
            EffectCall::SetTitleBarVisibility {
                window,
                visible: !effect_config.hide_title_bar.enabled,
            },
        ),
{
    calls.push(
        EffectCall::SetTitleBarVisibility {
            window,
            visible: !effect_config.hide_title_bar.enabled,
        },
    );
}

/// Sets the style of a window's corners.
fn apply_corner_effect(
    window: WindowId,
    effect_config: &WindowEffectConfig,
    calls: &mut Vec<EffectCall>,
)
    ensures
        final(calls)@ == old(calls)@.push(
            EffectCall::SetCornerStyle { window, style: corner_style(*effect_config) },
        ),
{
    let style = if effect_config.corner_style.enabled {
        effect_config.corner_style.style
    } else {
        CornerStyle::Default
    };
    calls.push(EffectCall::SetCornerStyle { window, style });
}

/// Sets the transparency of a window, or resets it.
fn apply_transparency_effect(
    window: WindowId,
    effect_config: &WindowEffectConfig,
    calls: &mut Vec<EffectCall>,
)
    ensures
        final(calls)@ == old(calls)@.push(
            EffectCall::SetTransparency { window, opacity: opacity(*effect_config) },
        ),
{
    let opacity = if effect_config.transparency.enabled {
        effect_config.transparency.opacity
    } else {
        // Reset the transparency to default.
        OpacityValue::from_alpha(u8::MAX)
    };
    calls.push(EffectCall::SetTransparency { window, opacity });
}

/// Adds the calls that give a window its effects.
pub fn apply_window_effects(
    window: WindowId,
    is_focused: bool,
    os: TargetOs,
    config: &UserConfig,
    calls: &mut Vec<EffectCall>,
)
    ensures
        final(calls)@ == old(calls)@ + effect_calls(window, is_focused, os, *config),
{
    let focused_window = &config.window_effects.focused_window;
    let other_windows = &config.window_effects.other_windows;
    let effect_config = if is_focused {
        focused_window
    } else {
        other_windows
    };
    let ghost before = calls@;
    if os != TargetOs::Windows {
        assert(calls@ =~= before + Seq::<EffectCall>::empty());
        return;
    }
    // Skip an effect if it is disabled for both.
    if focused_window.border.enabled || other_windows.border.enabled {
        apply_border_effect(window, effect_config, calls);
    }
    if focused_window.hide_title_bar.enabled || other_windows.hide_title_bar.enabled {
        apply_hide_title_bar_effect(window, effect_config, calls);
    }
    if focused_window.corner_style.enabled || other_windows.corner_style.enabled {
        apply_corner_effect(window, effect_config, calls);
    }
    if focused_window.transparency.enabled || other_windows.transparency.enabled {
        apply_transparency_effect(window, effect_config, calls);
    }
    assert(calls@ =~= before + effect_calls(window, is_focused, os, *config));
}

/// The calls that give windows without focus their effects. The window that
/// has focus is passed over.
pub open spec fn unfocused_calls(
    windows: Seq<WindowRef>,
    focused: ContainerId,
    os: TargetOs,
    config: UserConfig,
) -> Seq<EffectCall>
    decreases windows.len(),
{
    if windows.len() == 0 {
        Seq::empty()
    } else {
        unfocused_calls(windows.drop_last(), focused, os, config) + if windows.last().id
            != focused {
            effect_calls(windows.last().native, false, os, config)
        } else {
            Seq::empty()
        }
    }
}

/// The windows that may have to lose the effects for a focused window: all of
/// them where that was asked for, and otherwise the one that was last given
/// those effects.
pub open spec fn windows_losing_effects(state: WmState) -> Seq<WindowRef> {
    if state.pending_sync.needs_all_effects_update {
        state.window_refs()
    } else {
        match state.prev_effects_window {
            Some(window) => seq![window],
            None => Seq::empty(),
        }
    }
}

/// The window that has focus, if a window has it.
pub open spec fn focused_window(state: WmState) -> Option<WindowRef> {
    match state.find_focused() {
        Some(c) => match c.window {
            Some(w) => Some(WindowRef { id: c.id, native: w.native }),
            None => None,
        },
        None => None,
    }
}

/// The calls that bring the effects of windows up to date.
pub open spec fn effects_update(state: WmState, focused: ContainerId, config: UserConfig) -> Seq<
    EffectCall,
> {
    (match focused_window(state) {
        Some(window) => effect_calls(window.native, true, state.os, config),
        None => Seq::empty(),
    }) + unfocused_calls(windows_losing_effects(state), focused, state.os, config)
}

/// Brings the effects of windows up to date, and remembers the window that now
/// has the effects for a focused window.
///
/// For the sake of performance, only the window that last had those effects is
/// updated besides, unless an update of all windows was asked for.
pub fn update_effects(state: &mut WmState, config: &UserConfig) -> (calls: Vec<EffectCall>)
    requires
        old(state).find_focused() is Some,
    ensures
        calls@ == effects_update(*old(state), old(state).find_focused()->0.id, *config),
        *final(state) == (WmState {
            prev_effects_window: focused_window(*old(state)),
            ..*old(state)
        }),
{
    let mut calls: Vec<EffectCall> = Vec::new();
    let (focused, focused_ref) = match state.focused_container() {
        Some(c) => (
            c.id,
            match &c.window {
                Some(w) => Some(WindowRef { id: c.id, native: w.native }),
                None => None,
            },
        ),
        None => return calls,
    };
    if let Some(window) = focused_ref {
        apply_window_effects(window.native, true, state.os, config, &mut calls);
    }
    let ghost first = calls@;
    let unfocused_windows: Vec<WindowRef> = if state.pending_sync.needs_all_effects_update {
        state.windows()
    } else {
        let mut windows: Vec<WindowRef> = Vec::new();
        if let Some(window) = state.prev_effects_window {
            windows.push(window);
        }
        windows
    };
    assert(unfocused_windows@ =~= windows_losing_effects(*state));
    let os = state.os;
    let mut i: usize = 0;
    proof {
        assert(calls@ =~= first + unfocused_calls(
            unfocused_windows@.take(0),
            focused,
            os,
            *config,
        ));
    }
    while i < unfocused_windows.len()
        invariant
            i <= unfocused_windows.len(),
            calls@ == first + unfocused_calls(
                unfocused_windows@.take(i as int),
                focused,
                os,
                *config,
            ),
        decreases unfocused_windows.len() - i,
    {
        let window = unfocused_windows[i];
        let ghost before = calls@;
        proof {
            assert(unfocused_windows@.take(i + 1).drop_last() =~= unfocused_windows@.take(
                i as int,
            ));
        }
        if window.id != focused {
            apply_window_effects(window.native, false, os, config, &mut calls);
        }
        i += 1;
        proof {
            assert(calls@ =~= first + unfocused_calls(
                unfocused_windows@.take(i as int),
                focused,
                os,
                *config,
            ));
        }
    }
    proof {
        assert(unfocused_windows@.take(i as int) =~= unfocused_windows@);
        assert(first =~= match focused_window(*old(state)) {
            Some(window) => effect_calls(window.native, true, old(state).os, *config),
            None => Seq::empty(),
        });
    }
    state.prev_effects_window = focused_ref;
    calls
}

/// Where no effect is enabled, for windows with focus or without, no window is
/// touched.
pub proof fn law_disabled_effects_touch_nothing(
    window: WindowId,
    is_focused: bool,
    os: TargetOs,
    config: UserConfig,
)
    requires
        ({
            let focused = config.window_effects.focused_window;
            let other = config.window_effects.other_windows;
            &&& !focused.border.enabled && !other.border.enabled
            &&& !focused.hide_title_bar.enabled && !other.hide_title_bar.enabled
            &&& !focused.corner_style.enabled && !other.corner_style.enabled
            &&& !focused.transparency.enabled && !other.transparency.enabled
        }),
    ensures
        effect_calls(window, is_focused, os, config).len() == 0,
{
}

/// Whether some calls are made, one right after the other, among others.
pub open spec fn made_among(calls: Seq<EffectCall>, all: Seq<EffectCall>) -> bool {
    exists|at: int|
        0 <= at <= at + calls.len() <= all.len() && #[trigger] all.subrange(at, at + calls.len())
            == calls
}

/// Each window without focus that is to lose the effects for a focused window
/// is given those for other windows.
pub proof fn law_unfocused_windows_lose_their_effects(
    windows: Seq<WindowRef>,
    focused: ContainerId,
    os: TargetOs,
    config: UserConfig,
    i: int,
)
    requires
        0 <= i < windows.len(),
        windows[i].id != focused,
    ensures
        made_among(
            effect_calls(windows[i].native, false, os, config),
            unfocused_calls(windows, focused, os, config),
        ),
    decreases windows.len(),
{
    let calls = unfocused_calls(windows, focused, os, config);
    let rest = unfocused_calls(windows.drop_last(), focused, os, config);
    let own = effect_calls(windows[i].native, false, os, config);
    if i == windows.len() - 1 {
        let at = rest.len() as int;
        assert(calls.subrange(at, at + own.len()) =~= own);
    } else {
        law_unfocused_windows_lose_their_effects(windows.drop_last(), focused, os, config, i);
        let at = choose|at: int|
            0 <= at <= at + own.len() <= rest.len() && #[trigger] rest.subrange(
                at,
                at + own.len(),
            ) == own;
        assert(calls.subrange(at, at + own.len()) =~= rest.subrange(at, at + own.len()));
    }
}

/// The window that has focus is never given the effects for other windows.
pub proof fn law_focused_window_keeps_its_effects(
    windows: Seq<WindowRef>,
    focused: ContainerId,
    os: TargetOs,
    config: UserConfig,
)
    requires
        forall|i: int| 0 <= i < windows.len() ==> (#[trigger] windows[i]).id == focused,
    ensures
        unfocused_calls(windows, focused, os, config).len() == 0,
    decreases windows.len(),
{
    if windows.len() > 0 {
        assert(windows[windows.len() - 1].id == focused);
        assert forall|i: int| 0 <= i < windows.drop_last().len() implies (
        #[trigger] windows.drop_last()[i]).id == focused by {
            assert(windows[i].id == focused);
        }
        law_focused_window_keeps_its_effects(windows.drop_last(), focused, os, config);
    }
}

/// Two configurations that give windows without focus the same effects, and
/// enable the same effects for a window with focus, give a window without focus
/// the same effects: nothing that a window with focus looks like rubs off.
pub proof fn law_other_windows_take_nothing_from_the_focused_one(
    window: WindowId,
    os: TargetOs,
    a: UserConfig,
    b: UserConfig,
)
    requires
        ({
            let (x, y) = (a.window_effects, b.window_effects);
            &&& x.other_windows == y.other_windows
            &&& x.focused_window.border.enabled == y.focused_window.border.enabled
            &&& x.focused_window.hide_title_bar.enabled == y.focused_window.hide_title_bar.enabled
            &&& x.focused_window.corner_style.enabled == y.focused_window.corner_style.enabled
            &&& x.focused_window.transparency.enabled == y.focused_window.transparency.enabled
        }),
    ensures
        effect_calls(window, false, os, a) == effect_calls(window, false, os, b),
{
}

/// Two configurations that give a window with focus the same effects, and enable
/// the same effects for other windows, give a window with focus the same
/// effects.
pub proof fn law_focused_window_takes_nothing_from_the_others(
    window: WindowId,
    os: TargetOs,
    a: UserConfig,
    b: UserConfig,
)
    requires
        ({
            let (x, y) = (a.window_effects, b.window_effects);
            &&& x.focused_window == y.focused_window
            &&& x.other_windows.border.enabled == y.other_windows.border.enabled
            &&& x.other_windows.hide_title_bar.enabled == y.other_windows.hide_title_bar.enabled
            &&& x.other_windows.corner_style.enabled == y.other_windows.corner_style.enabled
            &&& x.other_windows.transparency.enabled == y.other_windows.transparency.enabled
        }),
    ensures
        effect_calls(window, true, os, a) == effect_calls(window, true, os, b),
{
}

/// Whether a call is about a window and carries what a configuration gives.
pub open spec fn carries(call: EffectCall, window: WindowId, own: WindowEffectConfig) -> bool {
    match call {
        EffectCall::SetBorderColor { window: w, color } => {
            &&& w == window
            &&& own.border.enabled ==> color == Some(own.border.color)
            &&& !own.border.enabled ==> color is None
        },
        EffectCall::SetBorderColorLater { window: w, color, delay_ms } => {
            &&& w == window
            &&& delay_ms == 50
            &&& own.border.enabled ==> color == Some(own.border.color)
            &&& !own.border.enabled ==> color is None
        },
        EffectCall::SetTitleBarVisibility { window: w, visible } => {
            w == window && visible != own.hide_title_bar.enabled
        },
        EffectCall::SetCornerStyle { window: w, style } => {
            &&& w == window
            &&& own.corner_style.enabled ==> style == own.corner_style.style
            &&& !own.corner_style.enabled ==> style == CornerStyle::Default
        },
        EffectCall::SetTransparency { window: w, opacity } => {
            &&& w == window
            &&& own.transparency.enabled ==> opacity == own.transparency.opacity
            &&& !own.transparency.enabled ==> opacity.alpha == 255
        },
    }
}

/// Every call made for a window with focus carries the values of the
/// configuration for that, and every call made for any other window those of
/// the configuration for other windows.
pub proof fn law_every_effect_is_the_windows_own(
    window: WindowId,
    os: TargetOs,
    config: UserConfig,
    i: int,
)
    ensures
        0 <= i < effect_calls(window, true, os, config).len() ==> carries(
            effect_calls(window, true, os, config)[i],
            window,
            config.window_effects.focused_window,
        ),
        0 <= i < effect_calls(window, false, os, config).len() ==> carries(
            effect_calls(window, false, os, config)[i],
            window,
            config.window_effects.other_windows,
        ),
{
    if 0 <= i < effect_calls(window, true, os, config).len() {
        lemma_effects_carry(window, true, os, config, i);
    }
    if 0 <= i < effect_calls(window, false, os, config).len() {
        lemma_effects_carry(window, false, os, config, i);
    }
}

proof fn lemma_effects_carry(
    window: WindowId,
    is_focused: bool,
    os: TargetOs,
    config: UserConfig,
    i: int,
)
    requires
        0 <= i < effect_calls(window, is_focused, os, config).len(),
    ensures
        carries(
            effect_calls(window, is_focused, os, config)[i],
            window,
            if is_focused {
                config.window_effects.focused_window
            } else {
                config.window_effects.other_windows
            },
        ),
{
    let focused = config.window_effects.focused_window;
    let other = config.window_effects.other_windows;
    let own = if is_focused {
        focused
    } else {
        other
    };
    let calls = effect_calls(window, is_focused, os, config);
    let borders = calls_if(
        focused.border.enabled || other.border.enabled,
        border_calls(window, own),
    );
    let title_bars = calls_if(
        focused.hide_title_bar.enabled || other.hide_title_bar.enabled,
        seq![
            EffectCall::SetTitleBarVisibility { window, visible: !own.hide_title_bar.enabled },
        ],
    );
    let corners = calls_if(
        focused.corner_style.enabled || other.corner_style.enabled,
        seq![EffectCall::SetCornerStyle { window, style: corner_style(own) }],
    );
    let a = borders.len() as int;
    let b = a + title_bars.len();
    let c = b + corners.len();
    if i < a {
        assert(calls[i] == borders[i]);
    } else if i < b {
        assert(calls[i] == title_bars[i - a]);
    } else if i < c {
        assert(calls[i] == corners[i - b]);
    } else {
        assert(i == c);
        assert(calls[i] == EffectCall::SetTransparency { window, opacity: opacity(own) });
    }
}

/// On Windows, an effect that is enabled for windows with focus or for others is
/// set on every window, whichever it is: on one that is to have it, and to take
/// it away from one that is not. The border is set again after a while. An
/// effect that is enabled for neither is set on none, and elsewhere none is.
pub proof fn law_enabled_effects_are_set_on_every_window(
    window: WindowId,
    is_focused: bool,
    os: TargetOs,
    config: UserConfig,
)
    ensures
        ({
            let calls = effect_calls(window, is_focused, os, config);
            let x = config.window_effects.focused_window;
            let y = config.window_effects.other_windows;
            let windows = os == TargetOs::Windows;
            let border = windows && (x.border.enabled || y.border.enabled);
            let title_bar = windows && (x.hide_title_bar.enabled || y.hide_title_bar.enabled);
            let corners = windows && (x.corner_style.enabled || y.corner_style.enabled);
            let transparency = windows && (x.transparency.enabled || y.transparency.enabled);
            &&& border <==> exists|i: int|
                0 <= i < calls.len() && #[trigger] calls[i] is SetBorderColor
            &&& border <==> exists|i: int|
                0 <= i < calls.len() && #[trigger] calls[i] is SetBorderColorLater
            &&& title_bar <==> exists|i: int|
                0 <= i < calls.len() && #[trigger] calls[i] is SetTitleBarVisibility
            &&& corners <==> exists|i: int|
                0 <= i < calls.len() && #[trigger] calls[i] is SetCornerStyle
            &&& transparency <==> exists|i: int|
                0 <= i < calls.len() && #[trigger] calls[i] is SetTransparency
        }),
{
    let calls = effect_calls(window, is_focused, os, config);
    let x = config.window_effects.focused_window;
    let y = config.window_effects.other_windows;
    let a: int = if x.border.enabled || y.border.enabled {
        2
    } else {
        0
    };
    let b: int = if x.hide_title_bar.enabled || y.hide_title_bar.enabled {
        a + 1
    } else {
        a
    };
    let c: int = if x.corner_style.enabled || y.corner_style.enabled {
        b + 1
    } else {
        b
    };
    if os == TargetOs::Windows {
        if a == 2 {
            assert(calls[0] is SetBorderColor);
            assert(calls[1] is SetBorderColorLater);
        }
        if b > a {
            assert(calls[a] is SetTitleBarVisibility);
        }
        if c > b {
            assert(calls[b] is SetCornerStyle);
        }
        if x.transparency.enabled || y.transparency.enabled {
            assert(calls[c] is SetTransparency);
        }
    }
}

/// Bringing effects up to date gives the window that has focus its effects
/// first. The window that had them before, if it is another one, is given those
/// for other windows; and where all windows are to be updated, so is every
/// window but the one with focus.
pub proof fn law_effects_move_with_focus(
    state: WmState,
    config: UserConfig,
    focused: Container,
    other: WindowRef,
)
    requires
        state.find_focused() == Some(focused),
        focused.id != other.id,
        ({
            ||| !state.pending_sync.needs_all_effects_update && state.prev_effects_window == Some(
                other,
            )
            ||| state.pending_sync.needs_all_effects_update && state.window_refs().contains(other)
        }),
    ensures
        ({
            let calls = effects_update(state, focused.id, config);
            &&& made_among(effect_calls(other.native, false, state.os, config), calls)
            &&& focused.window matches Some(w) ==> {
                let own = effect_calls(w.native, true, state.os, config);
                own.len() <= calls.len() && calls.take(own.len() as int) == own
            }
        }),
{
    let calls = effects_update(state, focused.id, config);
    let first = match focused.window {
        Some(w) => effect_calls(w.native, true, state.os, config),
        None => Seq::empty(),
    };
    let windows = windows_losing_effects(state);
    let rest = unfocused_calls(windows, focused.id, state.os, config);
    let own = effect_calls(other.native, false, state.os, config);
    assert(calls == first + rest);
    assert(windows.contains(other)) by {
        if !state.pending_sync.needs_all_effects_update {
            assert(windows[0] == other);
        }
    }
    let i = choose|i: int| 0 <= i < windows.len() && windows[i] == other;
    law_unfocused_windows_lose_their_effects(windows, focused.id, state.os, config, i);
    let at = choose|at: int|
        0 <= at <= at + own.len() <= rest.len() && #[trigger] rest.subrange(at, at + own.len())
            == own;
    let moved = first.len() + at;
    assert(calls.subrange(moved, moved + own.len()) =~= rest.subrange(at, at + own.len()));
    assert(calls.take(first.len() as int) =~= first);
}

/// What is remembered to have the effects for a focused window is the window
/// that has focus, or nothing where that is no window.
pub proof fn law_window_with_focus_is_remembered(state: WmState, focused: Container)
    requires
        state.find_focused() == Some(focused),
    ensures
        focused_window(state) == match focused.window {
            Some(w) => Some(WindowRef { id: focused.id, native: w.native }),
            None => None,
        },
{
}

/// Bringing effects up to date touches nothing but the window that has focus,
/// with its own effects, and windows that may have to lose them: the one that
/// had them before or, where all are to be updated, any window, each with the
/// effects for other windows.
pub proof fn law_no_other_window_is_touched(
    state: WmState,
    config: UserConfig,
    focused: Container,
    i: int,
)
    requires
        state.find_focused() == Some(focused),
        0 <= i < effects_update(state, focused.id, config).len(),
    ensures
        ({
            let call = effects_update(state, focused.id, config)[i];
            ||| focused.window is Some && carries(
                call,
                focused.window->0.native,
                config.window_effects.focused_window,
            )
            ||| exists|other: WindowRef|
                other.id != focused.id && #[trigger] may_lose_effects(state, other) && carries(
                    call,
                    other.native,
                    config.window_effects.other_windows,
                )
        }),
{
    let first = match focused.window {
        Some(w) => effect_calls(w.native, true, state.os, config),
        None => Seq::empty(),
    };
    let windows = windows_losing_effects(state);
    let rest = unfocused_calls(windows, focused.id, state.os, config);
    let calls = effects_update(state, focused.id, config);
    assert(calls == first + rest);
    if i < first.len() {
        assert(calls[i] == first[i]);
        law_every_effect_is_the_windows_own(focused.window->0.native, state.os, config, i);
    } else {
        assert(calls[i] == rest[i - first.len()]);
        lemma_unfocused_call(windows, focused.id, state.os, config, i - first.len());
        let n = choose|n: int|
            0 <= n < windows.len() && (#[trigger] windows[n]).id != focused.id && carries(
                rest[i - first.len()],
                windows[n].native,
                config.window_effects.other_windows,
            );
        assert(windows.contains(windows[n]));
        assert(may_lose_effects(state, windows[n]));
    }
}

/// Whether a window had the effects for a focused window before or, where all
/// windows are to be updated, is any window.
pub open spec fn may_lose_effects(state: WmState, window: WindowRef) -> bool {
    if state.pending_sync.needs_all_effects_update {
        state.window_refs().contains(window)
    } else {
        state.prev_effects_window == Some(window)
    }
}

proof fn lemma_unfocused_call(
    windows: Seq<WindowRef>,
    focused: ContainerId,
    os: TargetOs,
    config: UserConfig,
    i: int,
)
    requires
        0 <= i < unfocused_calls(windows, focused, os, config).len(),
    ensures
        exists|n: int|
            0 <= n < windows.len() && (#[trigger] windows[n]).id != focused && carries(
                unfocused_calls(windows, focused, os, config)[i],
                windows[n].native,
                config.window_effects.other_windows,
            ),
    decreases windows.len(),
{
    let rest = windows.drop_last();
    let before = unfocused_calls(rest, focused, os, config);
    let calls = unfocused_calls(windows, focused, os, config);
    if i < before.len() {
        lemma_unfocused_call(rest, focused, os, config, i);
        let n = choose|n: int|
            0 <= n < rest.len() && (#[trigger] rest[n]).id != focused && carries(
                before[i],
                rest[n].native,
                config.window_effects.other_windows,
            );
        assert(calls[i] == before[i]);
        assert(windows[n].id != focused);
    } else {
        let last = windows[windows.len() - 1];
        assert(last.id != focused);
        assert(calls[i] == effect_calls(last.native, false, os, config)[i - before.len()]);
        law_every_effect_is_the_windows_own(last.native, os, config, i - before.len());
    }
}

} // verus!
