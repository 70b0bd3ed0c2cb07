//! The timer as the autosplitter sees it: the state it reports and the
//! commands it takes.

use vstd::prelude::*;

verus! {

/// The state of a run as the timer reports it.
#[derive(Clone, Copy, PartialEq, Eq, Debug, Structural)]
pub enum TimerState {
    NotRunning,
    Running,
    Paused,
    Ended,
}

impl TimerState {
    /// Whether a run is under way, running or paused.
    pub open spec fn spec_in_run(self) -> bool {
        self == TimerState::Running || self == TimerState::Paused
    }

    /// Tells whether a run is under way, running or paused.
    pub fn in_run(&self) -> (in_run: bool)
        ensures
            in_run == self.spec_in_run(),
    {
        match self {
            TimerState::Running | TimerState::Paused => true,
            _ => false,
        }
    }
}

/// A command to the timer.
#[derive(Clone, Copy, PartialEq, Eq, Debug, Structural)]
pub enum TimerCommand {
    Start,
    Split,
    Reset,
}

} // verus!
