use vstd::prelude::*;

verus! {

/// What one bounded poll of the terminal gave.
#[derive(Debug, Clone, Copy, PartialEq, Eq, Structural)]
pub enum TerminalEvent {
    /// No input arrived before the poll's timeout (a failed poll counts as one).
    TimedOut,
    /// The Enter key was pressed.
    EnterPressed,
    /// Any other input, or an input that could not be read.
    OtherInput,
}

/// Whether the pause/resume control loop polls again or ends.
#[derive(Debug, Clone, Copy, PartialEq, Eq, Structural)]
pub enum ControlAction {
    KeepPolling,
    Exit,
}

/// The pause flag after an event: Enter toggles it, nothing else touches it.
pub open spec fn pause_after(paused: bool, event: TerminalEvent) -> bool {
    if event is EnterPressed {
        !paused
    } else {
        paused
    }
}

/// The pause flag after a sequence of events.
pub open spec fn pause_after_all(paused: bool, events: Seq<TerminalEvent>) -> bool
    decreases events.len(),
{
    if events.len() == 0 {
        paused
    } else {
        pause_after(pause_after_all(paused, events.drop_last()), events.last())
    }
}

/// The control loop ends only on a timeout tick that finds the scan complete.
pub open spec fn action_after(scan_complete: bool, event: TerminalEvent) -> ControlAction {
    if event is TimedOut && scan_complete {
        ControlAction::Exit
    } else {
        ControlAction::KeepPolling
    }
}

/// One turn of the pause/resume control loop: the new pause flag, and whether
/// the loop goes on.
pub fn handle_terminal_event(paused: bool, scan_complete: bool, event: TerminalEvent) -> (r: (
    bool,
    ControlAction,
))
    ensures
        r.0 == pause_after(paused, event),
        r.1 == action_after(scan_complete, event),
{
    match event {
        TerminalEvent::EnterPressed => (!paused, ControlAction::KeepPolling),
        TerminalEvent::OtherInput => (paused, ControlAction::KeepPolling),
        TerminalEvent::TimedOut => {
            if scan_complete {
                (paused, ControlAction::Exit)
            } else {
                (paused, ControlAction::KeepPolling)
            }
        },
    }
}

/// Pressing Enter twice in a row gives the pause flag back its first value.
pub proof fn lemma_toggle_twice(paused: bool)
    ensures
        pause_after(pause_after(paused, TerminalEvent::EnterPressed), TerminalEvent::EnterPressed) == paused,
{
}

/// After any sequence of events, the pause flag is its first value flipped once
/// for each Enter among them: it reflects the latest toggle.
pub proof fn lemma_pause_follows_enter_count(paused: bool, events: Seq<TerminalEvent>)
    ensures
        pause_after_all(paused, events) == (if events.filter(|e: TerminalEvent| e is EnterPressed).len() % 2 == 0 {
            paused
        } else {
            !paused
        }),
    decreases events.len(),
{
    reveal_with_fuel(Seq::filter, 1);
    if events.len() > 0 {
        lemma_pause_follows_enter_count(paused, events.drop_last());
    }
}

} // verus!
