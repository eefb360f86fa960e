//! Why a command cannot be carried out.

use vstd::prelude::*;

verus! {

#[derive(PartialEq, Eq, Clone, Debug)]
pub enum WmError {
    NoFocusedContainer,
    NoWorkspace,
    /// A window that has received focus lies in no workspace.
    FocusedWindowHasNoWorkspace,
    WindowHasNoWorkspace,
    NoMonitor,
    MonitorNotInHideCornerMap,
    /// The rect of a container cannot be worked out, for the given reason.
    RectUnavailable(String),
    /// Listeners could not be told of a change, for the given reason.
    EventFailed(String),
}

impl WmError {
    /// The error in words: its own where it names one of the window manager's
    /// conditions, and otherwise those of its reason.
    pub fn message(&self) -> (r: &str)
        ensures
            r@ == match *self {
                WmError::NoFocusedContainer => "No focused container."@,
                WmError::NoWorkspace => "No workspace."@,
                WmError::FocusedWindowHasNoWorkspace => "No workspace"@,
                WmError::WindowHasNoWorkspace => "Window has no workspace."@,
                WmError::NoMonitor => "No monitor."@,
                WmError::MonitorNotInHideCornerMap => "Monitor not found in hide corner map."@,
                WmError::RectUnavailable(reason) => reason@,
                WmError::EventFailed(reason) => reason@,
            },
    {
        match self {
            WmError::NoFocusedContainer => "No focused container.",
            WmError::NoWorkspace => "No workspace.",
            WmError::FocusedWindowHasNoWorkspace => "No workspace",
            WmError::WindowHasNoWorkspace => "Window has no workspace.",
            WmError::NoMonitor => "No monitor.",
            WmError::MonitorNotInHideCornerMap => "Monitor not found in hide corner map.",
            WmError::RectUnavailable(reason) => reason.as_str(),
            WmError::EventFailed(reason) => reason.as_str(),
        }
    }
}

} // verus!
