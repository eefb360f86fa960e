//! Questions to the system, and conditions that rest on their answers.

use vstd::prelude::*;

use crate::state::WindowId;

verus! {

/// What is known of something that only the system knows.
#[derive(PartialEq, Eq, Clone, Copy, Debug)]
pub enum Reading<T> {
    /// The system has not been asked.
    Unread,
    /// The system could not tell.
    Failed,
    Read(T),
}

/// A question to the system.
#[derive(PartialEq, Eq, Structural, Clone, Copy, Debug)]
pub enum Query {
    /// Is the session locked?
    SessionLocked,
    /// Is a menu open?
    MenuOpen,
    /// Which window has the keyboard focus?
    Foreground,
    /// Which windows can be seen?
    VisibleWindows,
    /// Does the window still exist?
    IsValid(WindowId),
    /// Can the window be seen? One that is cloaked cannot.
    IsVisible(WindowId),
    IsMinimized(WindowId),
    /// Is the window the desktop?
    IsDesktop(WindowId),
    /// Which class is the window of?
    ClassName(WindowId),
}

/// A condition that a question may have to be asked for.
#[derive(PartialEq, Eq, Structural, Clone, Copy, Debug)]
pub enum Probe {
    Known(bool),
    Ask(Query),
}

/// What a reading says, or `default` where the system could not tell.
pub open spec fn reading_or(reading: Reading<bool>, default: bool, query: Query) -> Probe {
    match reading {
        Reading::Unread => Probe::Ask(query),
        Reading::Failed => Probe::Known(default),
        Reading::Read(b) => Probe::Known(b),
    }
}

impl Probe {
    /// Whether this holds or, where it does not, `other` does.
    pub open spec fn or_else(self, other: Probe) -> Probe {
        if self == Probe::Known(false) {
            other
        } else {
            self
        }
    }

    /// Whether this holds and, where it does, `other` does too.
    pub open spec fn and_also(self, other: Probe) -> Probe {
        if self == Probe::Known(true) {
            other
        } else {
            self
        }
    }

    /// Whether this does not hold.
    pub open spec fn negated(self) -> Probe {
        match self {
            Probe::Known(b) => Probe::Known(!b),
            Probe::Ask(query) => Probe::Ask(query),
        }
    }

    /// What a reading says, or `default` where the system could not tell.
    pub fn read_or(reading: &Reading<bool>, default: bool, query: Query) -> (r: Probe)
        ensures
            r == reading_or(*reading, default, query),
    {
        match reading {
            Reading::Unread => Probe::Ask(query),
            Reading::Failed => Probe::Known(default),
            Reading::Read(b) => Probe::Known(*b),
        }
    }

    /// Whether this holds or, where it does not, `other` does.
    pub fn or(self, other: Probe) -> (r: Probe)
        ensures
            r == self.or_else(other),
    {
        match self {
            Probe::Known(false) => other,
            _ => self,
        }
    }

    /// Whether this holds and, where it does, `other` does too.
    pub fn and(self, other: Probe) -> (r: Probe)
        ensures
            r == self.and_also(other),
    {
        match self {
            Probe::Known(true) => other,
            _ => self,
        }
    }

    /// Whether this does not hold.
    pub fn not(self) -> (r: Probe)
        ensures
            r == self.negated(),
    {
        match self {
            Probe::Known(b) => Probe::Known(!b),
            Probe::Ask(query) => Probe::Ask(query),
        }
    }
}

/// Whether a reading is what it was before, unless the system had not been asked.
pub open spec fn is_filled<T>(before: Reading<T>, after: Reading<T>) -> bool {
    before is Unread || after == before
}

} // verus!
