//! The vocabulary shared with the host timer: the phase it reports, and what
//! the driver is asked to do to it.

use vstd::prelude::*;

verus! {

/// The phase of the host timer. The host owns it; it is read every tick and
/// changes only as the host carries out the actions asked of it.
#[derive(Clone, Copy, Debug, PartialEq, Eq, Structural)]
pub enum TimerState {
    /// No run is in progress.
    NotRunning,
    /// A run is in progress.
    Running,
    /// The run has ended and was not reset yet.
    Ended,
}

/// An action on the run as a whole. A tick asks for one at most.
#[derive(Clone, Copy, Debug, PartialEq, Eq, Structural)]
pub enum TimerAction {
    Start,
    Split,
    Reset,
}

/// What is to happen to the in-game time.
#[derive(Clone, Copy, Debug, PartialEq, Eq, Structural)]
pub enum GameTime {
    Pause,
    Resume,
}

/// How often the driver is to call again.
#[derive(Clone, Copy, Debug, PartialEq, Eq, Structural)]
pub enum TickRate {
    /// While looking for the game.
    Idle,
    /// While following a game.
    Running,
}

impl TickRate {
    /// The rate in ticks per second.
    pub open spec fn spec_hertz(self) -> u32 {
        match self {
            TickRate::Idle => 10,
            TickRate::Running => 100,
        }
    }

    /// The rate in ticks per second.
    #[verifier::when_used_as_spec(spec_hertz)]
    pub fn hertz(self) -> (rate: u32)
        ensures
            rate == self.spec_hertz(),
    {
        match self {
            TickRate::Idle => 10,
            TickRate::Running => 100,
        }
    }
}

} // verus!
