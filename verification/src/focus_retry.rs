//! Trying again, for a while, to give a window focus that the system has kept
//! elsewhere.

use vstd::prelude::*;

use crate::probe::{is_filled, reading_or, Probe, Query, Reading};
use crate::reconcile_focus::{
    in_sight, is_in_sight, is_shell_focus_target, names_a_taskbar, shell_target, WindowReadings,
};
use crate::state::WindowId;

verus! {

/// What is known when a retry is due.
#[derive(Debug)]
pub struct RetryFacts {
    pub foreground: Reading<WindowId>,
    /// The window that has the system's focus.
    pub current: WindowReadings,
    /// The window that is to have focus.
    pub target: WindowReadings,
    pub menu_open: Reading<bool>,
}

impl RetryFacts {
    /// Nothing is known yet.
    pub fn new() -> (r: RetryFacts)
        ensures
            r == (RetryFacts {
                foreground: Reading::Unread,
                current: WindowReadings::unread(),
                target: WindowReadings::unread(),
                menu_open: Reading::Unread,
            }),
    {
        RetryFacts {
            foreground: Reading::Unread,
            current: WindowReadings::new(),
            target: WindowReadings::new(),
            menu_open: Reading::Unread,
        }
    }
}

/// What a retry does next.
#[derive(PartialEq, Eq, Structural, Clone, Copy, Debug)]
pub enum RetryStep {
    /// Wait for some milliseconds before the next pass.
    Wait(u64),
    /// Ask the system, and decide again.
    Ask(Query),
    /// Focus a window, which ends the pass.
    Focus(WindowId),
    /// Leave it at that.
    Stop,
}

/// Whether a window exists, can be seen and is not minimized.
pub open spec fn can_have_focus(window: WindowId, readings: WindowReadings) -> Probe {
    reading_or(readings.is_valid, false, Query::IsValid(window)).and_also(
        in_sight(window, readings),
    )
}

fn is_fit_for_focus(window: WindowId, readings: &WindowReadings) -> (r: Probe)
    ensures
        r == can_have_focus(window, *readings),
{
    Probe::read_or(&readings.is_valid, false, Query::IsValid(window)).and(
        is_in_sight(window, readings),
    )
}

/// What is done where a retry is or is not worth it.
pub open spec fn retry_if(worth_it: Probe, target: WindowId) -> RetryStep {
    match worth_it {
        Probe::Ask(query) => RetryStep::Ask(query),
        Probe::Known(true) => RetryStep::Focus(target),
        Probe::Known(false) => RetryStep::Stop,
    }
}

fn retry_where(worth_it: Probe, target: WindowId) -> (r: RetryStep)
    ensures
        r == retry_if(worth_it, target),
{
    match worth_it {
        Probe::Ask(query) => RetryStep::Ask(query),
        Probe::Known(true) => RetryStep::Focus(target),
        Probe::Known(false) => RetryStep::Stop,
    }
}

/// The wait before each pass, in milliseconds.
pub open spec fn wait_before(delays: Seq<u64>, passes: int) -> RetryStep {
    if passes < delays.len() {
        RetryStep::Wait(delays[passes])
    } else {
        RetryStep::Stop
    }
}

/// The waits between the passes that see to it that focus arrives where it
/// was sent, in milliseconds.
pub open spec fn focus_convergence_delays_ms() -> Seq<u64> {
    seq![75, 150, 300, 600]
}

/// The waits between the passes that win focus back from the shell, in
/// milliseconds.
pub open spec fn shell_focus_restore_delays_ms() -> Seq<u64> {
    seq![150, 150, 300, 600]
}

/// Whether focus has stayed with the window that had it before, while the
/// window that it was sent to can have it.
pub open spec fn focus_unmoved(
    target: WindowId,
    previous_foreground: WindowId,
    facts: RetryFacts,
) -> Probe {
    match facts.foreground {
        Reading::Unread => Probe::Ask(Query::Foreground),
        Reading::Failed => Probe::Known(false),
        Reading::Read(current) => Probe::Known(
            current != target && current == previous_foreground,
        ).and_also(can_have_focus(target, facts.target)),
    }
}

/// What is done next to see to it that focus arrives at `target`.
pub open spec fn convergence_step(
    target: WindowId,
    previous_foreground: WindowId,
    passes: int,
    facts: Option<RetryFacts>,
) -> RetryStep {
    match facts {
        None => wait_before(focus_convergence_delays_ms(), passes),
        Some(facts) => retry_if(focus_unmoved(target, previous_foreground, facts), target),
    }
}

/// Decides what to do next to see to it that focus arrives at `target`, which
/// it was sent to while `previous_foreground` had it.
///
/// `passes` is the number of passes that are over. A pass begins with a wait,
/// and there are `facts` once that is over. Focus is sent to `target` again
/// only as long as it has not moved at all: if the user or another application
/// has given it to any other window, it stays there.
pub fn schedule_focus_convergence(
    target: WindowId,
    previous_foreground: WindowId,
    passes: usize,
    facts: Option<&RetryFacts>,
) -> (r: RetryStep)
    ensures
        r == convergence_step(
            target,
            previous_foreground,
            passes as int,
            match facts {
                Some(facts) => Some(*facts),
                None => None,
            },
        ),
{
    let facts = match facts {
        None => {
            return match passes {
                0 => RetryStep::Wait(75),
                1 => RetryStep::Wait(150),
                2 => RetryStep::Wait(300),
                3 => RetryStep::Wait(600),
                _ => RetryStep::Stop,
            };
        },
        Some(facts) => facts,
    };
    let unmoved = match facts.foreground {
        Reading::Unread => Probe::Ask(Query::Foreground),
        Reading::Failed => Probe::Known(false),
        Reading::Read(current) => Probe::Known(
            current != target && current == previous_foreground,
        ).and(is_fit_for_focus(target, &facts.target)),
    };
    retry_where(unmoved, target)
}

/// Whether focus has stayed with the shell, with no menu open, while
/// the window that it is to return to can have it.
pub open spec fn focus_left_on_shell(target: WindowId, facts: RetryFacts) -> Probe {
    match facts.foreground {
        Reading::Unread => Probe::Ask(Query::Foreground),
        Reading::Failed => Probe::Known(false),
        Reading::Read(current) => Probe::Known(current != target).and_also(
            shell_target(current, facts.current),
        ).and_also(can_have_focus(target, facts.target)).and_also(
            reading_or(facts.menu_open, false, Query::MenuOpen).negated(),
        ),
    }
}

/// What is done next to win focus back from the shell for `target`.
pub open spec fn shell_restore_step(
    target: WindowId,
    passes: int,
    facts: Option<RetryFacts>,
) -> RetryStep {
    match facts {
        None => wait_before(shell_focus_restore_delays_ms(), passes),
        Some(facts) => retry_if(focus_left_on_shell(target, facts), target),
    }
}

/// Decides what to do next to win focus back from the shell for `target`.
///
/// `passes` is the number of passes that are over. A pass begins with a wait,
/// and there are `facts` once that is over. If another window, Start or a
/// dialog takes focus, it is left alone. A menu of the taskbar or the desktop
/// keeps focus on the window that it belongs to, and can open after the first
/// pass, so every pass asks for one.
pub fn schedule_shell_focus_restore(
    target: WindowId,
    passes: usize,
    facts: Option<&RetryFacts>,
) -> (r: RetryStep)
    ensures
        r == shell_restore_step(
            target,
            passes as int,
            match facts {
                Some(facts) => Some(*facts),
                None => None,
            },
        ),
{
    let facts = match facts {
        None => {
            return match passes {
                0 => RetryStep::Wait(150),
                1 => RetryStep::Wait(150),
                2 => RetryStep::Wait(300),
                3 => RetryStep::Wait(600),
                _ => RetryStep::Stop,
            };
        },
        Some(facts) => facts,
    };
    let left_on_shell = match facts.foreground {
        Reading::Unread => Probe::Ask(Query::Foreground),
        Reading::Failed => Probe::Known(false),
        Reading::Read(current) => Probe::Known(current != target).and(
            is_shell_focus_target(current, &facts.current),
        ).and(is_fit_for_focus(target, &facts.target)).and(
            Probe::read_or(&facts.menu_open, false, Query::MenuOpen).not(),
        ),
    };
    retry_where(left_on_shell, target)
}

/// Both kinds of retry come to an end: there is a wait before each of four
/// passes and none after them.
pub proof fn law_retries_come_to_an_end(
    target: WindowId,
    previous_foreground: WindowId,
    passes: int,
)
    requires
        0 <= passes,
    ensures
        convergence_step(target, previous_foreground, passes, None) is Stop <==> passes >= 4,
        shell_restore_step(target, passes, None) is Stop <==> passes >= 4,
{
}

/// Focus is sent to a window again only while it remains with the very window
/// that had it before, and the window can be seen.
pub proof fn law_focus_that_has_moved_is_left_alone(
    target: WindowId,
    previous_foreground: WindowId,
    passes: int,
    facts: RetryFacts,
)
    ensures
        convergence_step(target, previous_foreground, passes, Some(facts)) matches RetryStep::Focus(
            window,
        ) ==> {
            &&& window == target
            &&& facts.foreground == Reading::Read(previous_foreground)
            &&& previous_foreground != target
            &&& facts.target.is_valid == Reading::Read(true)
            &&& facts.target.is_visible == Reading::Read(true)
            &&& facts.target.is_minimized == Reading::Read(false)
        },
{
}

/// Focus is won back only from the shell, and not while a menu is open.
pub proof fn law_focus_is_taken_only_from_the_shell(
    target: WindowId,
    passes: int,
    facts: RetryFacts,
)
    ensures
        shell_restore_step(target, passes, Some(facts)) matches RetryStep::Focus(window) ==> {
            &&& window == target
            &&& facts.foreground matches Reading::Read(current) && current != target
                && shell_target(current, facts.current) == Probe::Known(true)
            &&& facts.menu_open != Reading::Read(true)
            &&& facts.target.is_valid == Reading::Read(true)
            &&& facts.target.is_visible == Reading::Read(true)
            &&& facts.target.is_minimized == Reading::Read(false)
        },
{
}

/// Every question that a retry asks is one whose answer is not known.
pub proof fn law_retries_ask_only_open_questions(
    target: WindowId,
    previous_foreground: WindowId,
    passes: int,
    facts: RetryFacts,
)
    ensures
        convergence_step(target, previous_foreground, passes, Some(facts)) matches RetryStep::Ask(
            query,
        ) ==> is_open(query, target, facts),
        shell_restore_step(target, passes, Some(facts)) matches RetryStep::Ask(query) ==> is_open(
            query,
            target,
            facts,
        ),
{
}

/// Whether the answer to a question that a retry can ask is not known.
pub open spec fn is_open(query: Query, target: WindowId, facts: RetryFacts) -> bool {
    match query {
        Query::Foreground => facts.foreground is Unread,
        Query::MenuOpen => facts.menu_open is Unread,
        Query::IsValid(window) => window == target && facts.target.is_valid is Unread,
        Query::IsVisible(window) => window == target && facts.target.is_visible is Unread,
        Query::IsMinimized(window) => window == target && facts.target.is_minimized is Unread,
        Query::IsDesktop(window) => {
            &&& facts.foreground == Reading::Read(window)
            &&& facts.current.is_desktop is Unread
        },
        Query::ClassName(window) => {
            &&& facts.foreground == Reading::Read(window)
            &&& facts.current.class_name is Unread
        },
        Query::SessionLocked | Query::VisibleWindows => false,
    }
}

/// Whether nothing is left to ask for a pass.
pub open spec fn pass_known(facts: RetryFacts) -> bool {
    &&& !(facts.foreground is Unread)
    &&& !(facts.menu_open is Unread)
    &&& !(facts.target.is_valid is Unread)
    &&& !(facts.target.is_visible is Unread)
    &&& !(facts.target.is_minimized is Unread)
    &&& !(facts.current.is_desktop is Unread)
    &&& !(facts.current.class_name is Unread)
}

/// Whether a window is known to exist, to be seen and not to be minimized.
pub open spec fn is_ready(readings: WindowReadings) -> bool {
    &&& readings.is_valid == Reading::Read(true)
    &&& readings.is_visible == Reading::Read(true)
    &&& readings.is_minimized == Reading::Read(false)
}

/// Once everything is known, a pass sends focus to its target just if focus is
/// still on the window that had it before, which is another one, and the target
/// is ready for it. Otherwise it stops for good. Menus have no say in it.
pub proof fn law_unmoved_focus_is_sent_again(
    target: WindowId,
    previous_foreground: WindowId,
    passes: int,
    facts: RetryFacts,
)
    requires
        pass_known(facts),
    ensures
        convergence_step(target, previous_foreground, passes, Some(facts)) == if {
            &&& facts.foreground == Reading::Read(previous_foreground)
            &&& previous_foreground != target
            &&& is_ready(facts.target)
        } {
            RetryStep::Focus(target)
        } else {
            RetryStep::Stop
        },
{
}

/// Once everything is known, a pass wins focus back for its target just if focus
/// is on no window, on the desktop or on a taskbar, and not on the target, no
/// menu is known to be open and the target is ready for it. Otherwise it stops
/// for good.
pub proof fn law_focus_left_on_the_shell_is_won_back(
    target: WindowId,
    passes: int,
    facts: RetryFacts,
)
    requires
        pass_known(facts),
    ensures
        shell_restore_step(target, passes, Some(facts)) == if {
            &&& facts.foreground matches Reading::Read(current) && current != target && {
                ||| current == 0
                ||| facts.current.is_desktop == Reading::Read(true)
                ||| names_a_taskbar(facts.current.class_name)
            }
            &&& facts.menu_open != Reading::Read(true)
            &&& is_ready(facts.target)
        } {
            RetryStep::Focus(target)
        } else {
            RetryStep::Stop
        },
{
}

/// Before each pass there is a wait: of 75, 150, 300 and 600 milliseconds for
/// focus to arrive, and of 150, 150, 300 and 600 to win it back from the shell.
pub proof fn law_passes_are_spaced_out(target: WindowId, previous_foreground: WindowId)
    ensures
        convergence_step(target, previous_foreground, 0, None) == RetryStep::Wait(75),
        convergence_step(target, previous_foreground, 1, None) == RetryStep::Wait(150),
        convergence_step(target, previous_foreground, 2, None) == RetryStep::Wait(300),
        convergence_step(target, previous_foreground, 3, None) == RetryStep::Wait(600),
        shell_restore_step(target, 0, None) == RetryStep::Wait(150),
        shell_restore_step(target, 1, None) == RetryStep::Wait(150),
        shell_restore_step(target, 2, None) == RetryStep::Wait(300),
        shell_restore_step(target, 3, None) == RetryStep::Wait(600),
{
}

impl RetryFacts {
    /// Whether more may be known than before, and nothing else.
    pub open spec fn is_filled(self, after: RetryFacts) -> bool {
        &&& is_filled(self.foreground, after.foreground)
        &&& self.current.is_filled(after.current)
        &&& self.target.is_filled(after.target)
        &&& is_filled(self.menu_open, after.menu_open)
    }
}

/// What a pass decides before everything is known stands, whatever else becomes
/// known.
pub proof fn law_early_passes_stand(
    target: WindowId,
    previous_foreground: WindowId,
    passes: int,
    facts: RetryFacts,
    more: RetryFacts,
)
    requires
        facts.is_filled(more),
    ensures
        convergence_step(target, previous_foreground, passes, Some(facts)) is Ask
            || convergence_step(target, previous_foreground, passes, Some(more))
            == convergence_step(target, previous_foreground, passes, Some(facts)),
        shell_restore_step(target, passes, Some(facts)) is Ask || shell_restore_step(
            target,
            passes,
            Some(more),
        ) == shell_restore_step(target, passes, Some(facts)),
{
}

} // verus!
