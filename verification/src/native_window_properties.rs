//! What the window manager keeps of a native window's own properties.

use vstd::prelude::*;

use crate::rect::{Rect, RectDelta};

verus! {

/// Properties of a native window, as they stood when the window manager
/// decided whether to manage it.
#[derive(Debug, Clone)]
pub struct NativeWindowProperties {
    pub title: String,
    /// Window class. Absent where the system has no such notion.
    pub class_name: Option<String>,
    pub process_name: String,
    pub frame: Rect,
    pub is_minimized: bool,
    pub is_maximized: bool,
    pub is_resizable: bool,
    /// Invisible borders around the frame. Absent where the system draws none.
    pub shadow_borders: Option<RectDelta>,
    /// When the properties were read, in milliseconds of a clock that never
    /// runs backwards. The properties are read once and carried across state
    /// changes, so this does not move for the life of the window.
    pub read_at: u64,
}

/// What came back from reading each property of a native window.
///
/// `class_name` and `shadow_borders` are `None` where the system has no such
/// property to read.
pub struct NativeWindowReadings<E> {
    pub title: Result<String, E>,
    pub class_name: Option<Result<String, E>>,
    pub process_name: Result<String, E>,
    pub frame: Result<Rect, E>,
    pub is_minimized: Result<bool, E>,
    pub is_maximized: Result<bool, E>,
    pub is_resizable: Result<bool, E>,
    pub shadow_borders: Option<Result<RectDelta, E>>,
    pub read_at: u64,
}

impl<E> NativeWindowReadings<E> {
    /// The error of the first property that could not be read, in the order
    /// in which they are read.
    pub open spec fn first_failure(self) -> Option<E> {
        if self.title is Err {
            Some(self.title->Err_0)
        } else if let Some(Err(e)) = self.class_name {
            Some(e)
        } else if self.process_name is Err {
            Some(self.process_name->Err_0)
        } else if self.frame is Err {
            Some(self.frame->Err_0)
        } else if self.is_minimized is Err {
            Some(self.is_minimized->Err_0)
        } else if self.is_maximized is Err {
            Some(self.is_maximized->Err_0)
        } else if self.is_resizable is Err {
            Some(self.is_resizable->Err_0)
        } else if let Some(Err(e)) = self.shadow_borders {
            Some(e)
        } else {
            None
        }
    }
}

/// Takes the value out of an optional reading.
fn read_optional<T, E>(reading: Option<Result<T, E>>) -> (r: Result<Option<T>, E>)
    ensures
        match reading {
            None => r == Ok::<Option<T>, E>(None),
            Some(Ok(value)) => r == Ok::<Option<T>, E>(Some(value)),
            Some(Err(e)) => r == Err::<Option<T>, E>(e),
        },
{
    match reading {
        None => Ok(None),
        Some(Ok(value)) => Ok(Some(value)),
        Some(Err(e)) => Err(e),
    }
}

impl NativeWindowProperties {
    /// Puts the properties of a native window together from what was read.
    ///
    /// The properties are there only if every one of them could be read; the
    /// error is otherwise that of the first that could not.
    pub fn try_from<E>(readings: NativeWindowReadings<E>) -> (r: Result<NativeWindowProperties, E>)
        ensures
            r is Err <==> readings.first_failure() is Some,
            r matches Err(e) ==> readings.first_failure() == Some(e),
            r matches Ok(properties) ==> {
                &&& readings.title == Ok::<String, E>(properties.title)
                &&& readings.class_name == match properties.class_name {
                    Some(name) => Some(Ok::<String, E>(name)),
                    None => None,
                }
                &&& readings.process_name == Ok::<String, E>(properties.process_name)
                &&& readings.frame == Ok::<Rect, E>(properties.frame)
                &&& readings.is_minimized == Ok::<bool, E>(properties.is_minimized)
                &&& readings.is_maximized == Ok::<bool, E>(properties.is_maximized)
                &&& readings.is_resizable == Ok::<bool, E>(properties.is_resizable)
                &&& readings.shadow_borders == match properties.shadow_borders {
                    Some(borders) => Some(Ok::<RectDelta, E>(borders)),
                    None => None,
                }
                &&& readings.read_at == properties.read_at
            },
    {
        let title = match readings.title {
            Ok(title) => title,
            Err(e) => return Err(e),
        };
        let class_name = match read_optional(readings.class_name) {
            Ok(class_name) => class_name,
            Err(e) => return Err(e),
        };
        let process_name = match readings.process_name {
            Ok(process_name) => process_name,
            Err(e) => return Err(e),
        };
        let frame = match readings.frame {
            Ok(frame) => frame,
            Err(e) => return Err(e),
        };
        let is_minimized = match readings.is_minimized {
            Ok(is_minimized) => is_minimized,
            Err(e) => return Err(e),
        };
        let is_maximized = match readings.is_maximized {
            Ok(is_maximized) => is_maximized,
            Err(e) => return Err(e),
        };
        let is_resizable = match readings.is_resizable {
            Ok(is_resizable) => is_resizable,
            Err(e) => return Err(e),
        };
        let shadow_borders = match read_optional(readings.shadow_borders) {
            Ok(shadow_borders) => shadow_borders,
            Err(e) => return Err(e),
        };
        Ok(
            NativeWindowProperties {
                title,
                class_name,
                process_name,
                frame,
                is_minimized,
                is_maximized,
                is_resizable,
                shadow_borders,
                read_at: readings.read_at,
            },
        )
    }
}

} // verus!
