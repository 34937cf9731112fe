//! The lifecycle stage of the server loop.

use vstd::prelude::*;

verus! {

/// The stage the server loop is in. A loop starts in `Accepting`, moves to
/// `Draining` when it stops admitting connections, and ends in `Stopped`.
#[derive(Clone, Copy, Debug, PartialEq, Eq, Structural)]
pub enum Phase {
    /// New connections are admitted and completions are observed.
    Accepting,
    /// No connection is admitted any more; outstanding handlers may finish.
    Draining,
    /// Terminal: the outcome of the run is fixed.
    Stopped,
}

impl Phase {
    /// The position of the phase in the lifecycle: 0, 1, 2.
    pub open spec fn rank(self) -> nat {
        match self {
            Phase::Accepting => 0,
            Phase::Draining => 1,
            Phase::Stopped => 2,
        }
    }

    /// Whether the loop has reached its terminal phase.
    pub fn is_stopped(&self) -> (r: bool)
        ensures
            r == (*self == Phase::Stopped),
    {
        match self {
            Phase::Stopped => true,
            _ => false,
        }
    }
}

} // verus!
