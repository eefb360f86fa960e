//! The decisions of a tiling window manager that keep what the operating
//! system shows in step with what the window manager holds: which windows are
//! redrawn and how they are placed, which window has the keyboard focus, and
//! which windows the shell is told are fullscreen.
//!
//! Nothing in here talks to the operating system. A command reads the window
//! manager's state as plain values and answers with what is to be done. Where
//! a decision rests on something only the system knows, the command names the
//! next question to ask, and is run again with the answer.

pub mod config;
pub mod effects;
pub mod error;
pub mod focus_retry;
pub mod focus_window_in_cycle;
pub mod fullscreen;
pub mod handle_window_focused;
pub mod native_window_properties;
pub mod platform_sync;
pub mod probe;
pub mod reconcile_focus;
pub mod reconcile_taskbar;
pub mod rect;
pub mod redraw;
pub mod redraw_order;
pub mod reposition;
pub mod state;
pub mod text;

