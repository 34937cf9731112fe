//! The server loop as a transition system over mathematical state.
//!
//! The executable loop in `server` is specified against these functions, and
//! the lifecycle laws in `laws` are proved about them.

use vstd::prelude::*;
use crate::event::{Action, Event, Wait};
use crate::phase::Phase;

verus! {

/// The state of a server loop.
pub struct LoopState<S, E> {
    /// The lifecycle stage.
    pub phase: Phase,
    /// Connections admitted so far.
    pub accepted: nat,
    /// Completions observed so far.
    pub completed: nat,
    /// Handlers outstanding: the size of the worker pool.
    pub in_flight: nat,
    /// The first fatal error observed, if any.
    pub failure: Option<E>,
    /// The shared state that handlers get their copies of.
    pub state: S,
}

impl<S, E> LoopState<S, E> {
    /// The state a loop starts in: accepting, with nothing admitted.
    pub open spec fn initial(state: S) -> Self {
        LoopState {
            phase: Phase::Accepting,
            accepted: 0,
            completed: 0,
            in_flight: 0,
            failure: None,
            state,
        }
    }

    /// What holds of every state a loop can be in: the pool holds what was
    /// admitted and has not completed; a loop that still accepts has seen no
    /// fatal error; a stopped loop has an empty pool.
    pub open spec fn consistent(self) -> bool {
        &&& self.in_flight + self.completed == self.accepted
        &&& (self.phase == Phase::Accepting ==> self.failure is None)
        &&& (self.phase == Phase::Stopped ==> self.in_flight == 0)
    }

    /// The state with `error` noted as fatal. The first error noted is kept.
    pub open spec fn noting(self, error: E) -> Self {
        LoopState {
            failure: if self.failure is None {
                Some(error)
            } else {
                self.failure
            },
            ..self
        }
    }

    /// The state with one completion observed: a member leaves the pool.
    pub open spec fn reaping(self) -> Self {
        LoopState {
            completed: self.completed + 1,
            in_flight: (self.in_flight - 1) as nat,
            ..self
        }
    }

    /// The state with the accept phase ended. Later phases are left as they are.
    pub open spec fn draining(self) -> Self {
        LoopState {
            phase: if self.phase == Phase::Accepting {
                Phase::Draining
            } else {
                self.phase
            },
            ..self
        }
    }

    /// The state after `event`.
    ///
    /// While accepting, the shutdown signal, the end of the connection stream,
    /// an accept error and a handler's failure each end the accept phase, the
    /// two errors being noted as fatal; a connection is admitted; a handler's
    /// success is counted. While draining only completions count, and a
    /// failure among them is noted if it is the first. A completion reported
    /// of an empty pool belongs to no handler and changes nothing. A stopped
    /// loop changes no more. The shared state is never touched.
    pub open spec fn on<C>(self, event: Event<C, E>) -> Self {
        match self.phase {
            Phase::Accepting => match event {
                Event::Shutdown => self.draining(),
                Event::Connection(_) => LoopState {
                    accepted: self.accepted + 1,
                    in_flight: self.in_flight + 1,
                    ..self
                },
                Event::AcceptFailed(error) => self.noting(error).draining(),
                Event::ListenersClosed => self.draining(),
                Event::Finished(result) => if self.in_flight == 0 {
                    self
                } else {
                    match result {
                        Ok(_) => self.reaping(),
                        Err(error) => self.reaping().noting(error).draining(),
                    }
                },
            },
            Phase::Draining => match event {
                Event::Finished(result) => if self.in_flight == 0 {
                    self
                } else {
                    match result {
                        Ok(_) => self.reaping(),
                        Err(error) => self.reaping().noting(error),
                    }
                },
                _ => self,
            },
            Phase::Stopped => self,
        }
    }

    /// Whether `event` ends the accept phase of this state.
    pub open spec fn closes_on<C>(self, event: Event<C, E>) -> bool {
        self.phase == Phase::Accepting && self.on(event).phase != Phase::Accepting
    }

    /// The state once the loop has looked at its pool: draining ends when
    /// nothing is outstanding.
    pub open spec fn settle(self) -> Self {
        if self.phase == Phase::Draining && self.in_flight == 0 {
            LoopState { phase: Phase::Stopped, ..self }
        } else {
            self
        }
    }

    /// What the loop suspends on in this state, once settled.
    pub open spec fn awaits(self) -> Wait {
        match self.settle().phase {
            Phase::Accepting => Wait::AnySource,
            Phase::Draining => Wait::Completion,
            Phase::Stopped => Wait::Nothing,
        }
    }

    /// The result of the run: known once the loop has stopped, and then the
    /// first fatal error if there was one.
    pub open spec fn outcome(self) -> Option<Result<(), E>> {
        if self.phase == Phase::Stopped {
            Some(
                match self.failure {
                    Some(error) => Err(error),
                    None => Ok(()),
                },
            )
        } else {
            None
        }
    }

    /// The state after the loop has taken `events` in order, looking at its
    /// pool before the first and after each.
    pub open spec fn run<C>(self, events: Seq<Event<C, E>>) -> Self
        decreases events.len(),
    {
        if events.len() == 0 {
            self.settle()
        } else {
            self.run(events.drop_last()).on(events.last()).settle()
        }
    }
}

impl<S: Clone, E> LoopState<S, E> {
    /// Whether `action` is what the caller is owed for `event` in this state.
    /// A connection gets a handler, with a copy of the shared state, exactly
    /// while the loop accepts; later it is refused. The listeners are closed
    /// at the event that ends the accept phase. Nothing else is asked.
    pub open spec fn answers<C>(self, event: Event<C, E>, action: Action<C, S>) -> bool {
        match event {
            Event::Connection(conn) => if self.phase == Phase::Accepting {
                action matches Action::Spawn(given, copy) && given == conn && cloned(
                    self.state,
                    copy,
                )
            } else {
                action == Action::<C, S>::Refuse(conn)
            },
            _ => action == if self.closes_on(event) {
                Action::<C, S>::CloseListeners
            } else {
                Action::<C, S>::Continue
            },
        }
    }
}

} // verus!
