//! The part of the user's configuration that the commands read.

use vstd::prelude::*;

verus! {

/// How windows of a workspace that is not displayed are kept out of sight.
#[derive(PartialEq, Eq, Structural, Clone, Copy, Debug)]
pub enum HideMethod {
    Hide,
    Cloak,
    PlaceInCorner,
}

/// What makes the cursor jump.
#[derive(PartialEq, Eq, Structural, Clone, Copy, Debug)]
pub enum CursorJumpTrigger {
    MonitorFocus,
    WindowFocus,
}

#[derive(PartialEq, Eq, Structural, Clone, Copy, Debug)]
pub struct CursorJumpConfig {
    pub enabled: bool,
    pub trigger: CursorJumpTrigger,
}

#[derive(PartialEq, Eq, Structural, Clone, Copy, Debug)]
pub struct GeneralConfig {
    pub cursor_jump: CursorJumpConfig,
    pub hide_method: HideMethod,
    /// Whether windows out of sight keep their tab in the taskbar.
    pub show_all_in_taskbar: bool,
    /// Whether focus that the shell has taken or dropped is won back.
    pub restore_focus_on_shell: bool,
}

#[derive(PartialEq, Eq, Structural, Clone, Copy, Debug)]
pub struct Color {
    pub r: u8,
    pub g: u8,
    pub b: u8,
    pub a: u8,
}

#[derive(PartialEq, Eq, Structural, Clone, Copy, Debug)]
pub enum CornerStyle {
    Default,
    Square,
    Rounded,
    SmallRounded,
}

/// Opacity of a window: 0 is fully transparent, 255 fully opaque.
#[derive(PartialEq, Eq, Structural, Clone, Copy, Debug)]
pub struct OpacityValue {
    pub alpha: u8,
}

impl OpacityValue {
    pub fn from_alpha(alpha: u8) -> (r: OpacityValue)
        ensures
            r.alpha == alpha,
    {
        OpacityValue { alpha }
    }
}

#[derive(PartialEq, Eq, Structural, Clone, Copy, Debug)]
pub struct BorderEffectConfig {
    pub enabled: bool,
    pub color: Color,
}

#[derive(PartialEq, Eq, Structural, Clone, Copy, Debug)]
pub struct HideTitleBarEffectConfig {
    pub enabled: bool,
}

#[derive(PartialEq, Eq, Structural, Clone, Copy, Debug)]
pub struct CornerEffectConfig {
    pub enabled: bool,
    pub style: CornerStyle,
}

#[derive(PartialEq, Eq, Structural, Clone, Copy, Debug)]
pub struct TransparencyEffectConfig {
    pub enabled: bool,
    pub opacity: OpacityValue,
}

/// Effects given to a window.
#[derive(PartialEq, Eq, Structural, Clone, Copy, Debug)]
pub struct WindowEffectConfig {
    pub border: BorderEffectConfig,
    pub hide_title_bar: HideTitleBarEffectConfig,
    pub corner_style: CornerEffectConfig,
    pub transparency: TransparencyEffectConfig,
}

#[derive(PartialEq, Eq, Structural, Clone, Copy, Debug)]
pub struct WindowEffectsConfig {
    pub focused_window: WindowEffectConfig,
    pub other_windows: WindowEffectConfig,
}

#[derive(PartialEq, Eq, Structural, Clone, Copy, Debug)]
pub struct UserConfig {
    pub general: GeneralConfig,
    pub window_effects: WindowEffectsConfig,
}

} // verus!
