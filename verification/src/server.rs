//! The server loop: the one place where connections, completions and the
//! shutdown signal meet.
//!
//! The loop itself performs no I/O. Its caller waits on what
//! [`ServerLoop::next_wait`] names, hands the event that came to
//! [`ServerLoop::step`], and performs the action that comes back. When
//! `next_wait` names nothing more, [`ServerLoop::outcome`] is the result of
//! the run.
//!
//! A fatal error, whether from a listener or from a handler, ends the accept
//! phase like the shutdown signal does: the handlers in flight are still
//! waited for, and the first such error is the outcome.

use vstd::prelude::*;
use crate::event::{Action, Event, Wait};
use crate::model::LoopState;
use crate::phase::Phase;
use crate::pool::WorkerPool;

verus! {

/// The state of one run of a server. `S` is the state shared by its
/// handlers, `E` the error type of its handlers and listeners.
pub struct ServerLoop<S, E> {
    phase: Phase,
    accepted: u64,
    completed: u64,
    pool: WorkerPool,
    failure: Option<E>,
    state: S,
}

impl<S, E> ServerLoop<S, E> {
    /// The loop as mathematical state.
    pub closed spec fn view(&self) -> LoopState<S, E> {
        LoopState {
            phase: self.phase,
            accepted: self.accepted as nat,
            completed: self.completed as nat,
            in_flight: self.pool@,
            failure: self.failure,
            state: self.state,
        }
    }

    /// The loop's invariant; every loop made by `new` and changed through
    /// the methods below has it.
    pub open spec fn wf(&self) -> bool {
        self@.consistent()
    }

    /// A loop that accepts, with nothing admitted yet.
    pub fn new(state: S) -> (server: ServerLoop<S, E>)
        ensures
            server.wf(),
            server@ == LoopState::<S, E>::initial(state),
    {
        ServerLoop {
            phase: Phase::Accepting,
            accepted: 0,
            completed: 0,
            pool: WorkerPool::new(),
            failure: None,
            state,
        }
    }

    /// The lifecycle stage.
    pub fn phase(&self) -> (phase: Phase)
        ensures
            phase == self@.phase,
    {
        self.phase
    }

    /// Connections admitted so far.
    pub fn accepted(&self) -> (n: u64)
        ensures
            n == self@.accepted,
    {
        self.accepted
    }

    /// Completions observed so far.
    pub fn completed(&self) -> (n: u64)
        ensures
            n == self@.completed,
    {
        self.completed
    }

    /// Handlers outstanding: the size of the worker pool.
    pub fn in_flight(&self) -> (n: u64)
        ensures
            n == self@.in_flight,
    {
        self.pool.size()
    }

    /// The worker pool.
    pub fn pool(&self) -> (pool: &WorkerPool)
        ensures
            pool@ == self@.in_flight,
    {
        &self.pool
    }

    /// The first fatal error observed so far, if any.
    pub fn failure(&self) -> (failure: Option<&E>)
        ensures
            failure is Some == self@.failure is Some,
            failure is Some ==> *failure->0 == self@.failure->0,
    {
        self.failure.as_ref()
    }

    /// The shared state.
    pub fn state(&self) -> (state: &S)
        ensures
            *state == self@.state,
    {
        &self.state
    }

    /// Whether the loop can count one more connection.
    pub fn has_room(&self) -> (room: bool)
        ensures
            room == (self@.accepted < u64::MAX),
    {
        self.accepted < u64::MAX
    }

    /// What to wait on next. A draining loop with nothing outstanding stops here.
    pub fn next_wait(&mut self) -> (wait: Wait)
        requires
            old(self).wf(),
        ensures
            final(self).wf(),
            final(self)@ == old(self)@.settle(),
            wait == old(self)@.awaits(),
    {
        match self.phase {
            Phase::Accepting => Wait::AnySource,
            Phase::Draining => {
                if self.pool.is_empty() {
                    self.phase = Phase::Stopped;
                    Wait::Nothing
                } else {
                    Wait::Completion
                }
            },
            Phase::Stopped => Wait::Nothing,
        }
    }

    /// The result of the run: `None` until the loop has stopped, then
    /// success or the first fatal error.
    pub fn outcome(self) -> (outcome: Option<Result<(), E>>)
        ensures
            outcome == self@.outcome(),
    {
        match self.phase {
            Phase::Stopped => match self.failure {
                Some(error) => Some(Err(error)),
                None => Some(Ok(())),
            },
            _ => None,
        }
    }

    /// Notes `error` as fatal unless an earlier one is held.
    fn note(&mut self, error: E)
        ensures
            final(self)@ == old(self)@.noting(error),
    {
        if self.failure.is_none() {
            self.failure = Some(error);
        }
    }

    /// Ends the accept phase if the loop is in it.
    fn stop_accepting<C>(&mut self) -> (action: Action<C, S>)
        ensures
            final(self)@ == old(self)@.draining(),
            action == if old(self)@.phase == Phase::Accepting {
                Action::<C, S>::CloseListeners
            } else {
                Action::<C, S>::Continue
            },
    {
        match self.phase {
            Phase::Accepting => {
                self.phase = Phase::Draining;
                Action::CloseListeners
            },
            _ => Action::Continue,
        }
    }
}

impl<S: Clone, E> ServerLoop<S, E> {
    /// Takes one event and says what to perform for it.
    ///
    /// The counter of admitted connections has 64 bits; a connection handed to
    /// an accepting loop must find room in it.
    pub fn step<C>(&mut self, event: Event<C, E>) -> (action: Action<C, S>)
        requires
            old(self).wf(),
            event is Connection && old(self)@.phase == Phase::Accepting ==> old(self)@.accepted
                < u64::MAX,
        ensures
            final(self).wf(),
            final(self)@ == old(self)@.on(event),
            old(self)@.answers(event, action),
    {
        match event {
            Event::Connection(conn) => {
                match self.phase {
                    Phase::Accepting => {
                        let copy = self.state.clone();
                        self.accepted = self.accepted + 1;
                        self.pool.spawn();
                        Action::Spawn(conn, copy)
                    },
                    _ => Action::Refuse(conn),
                }
            },
            Event::Shutdown | Event::ListenersClosed => self.stop_accepting(),
            Event::AcceptFailed(error) => {
                match self.phase {
                    Phase::Accepting => {
                        self.note(error);
                        self.stop_accepting()
                    },
                    _ => Action::Continue,
                }
            },
            Event::Finished(result) => {
                match self.phase {
                    Phase::Stopped => Action::Continue,
                    _ => {
                        if self.pool.complete() {
                            self.completed = self.completed + 1;
                            match result {
                                Ok(_) => Action::Continue,
                                Err(error) => {
                                    self.note(error);
                                    self.stop_accepting()
                                },
                            }
                        } else {
                            Action::Continue
                        }
                    },
                }
            },
        }
    }
}

} // verus!
