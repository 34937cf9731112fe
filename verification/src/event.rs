//! What the server loop is told, and what it answers.

use vstd::prelude::*;

verus! {

/// Something that happened on one of the loop's input sources. `C` is the
/// connection type and `E` the error type of the embedding runtime; the loop
/// passes both through without looking inside.
#[derive(Debug, PartialEq, Eq)]
pub enum Event<C, E> {
    /// The shutdown signal resolved.
    Shutdown,
    /// The listener set produced a connection.
    Connection(C),
    /// The listener set reported an error while accepting.
    AcceptFailed(E),
    /// The merged stream of connections came to an end.
    ListenersClosed,
    /// A handler finished, with success or with its error.
    Finished(Result<(), E>),
}

/// What the caller has to perform after an event. `S` is the shared state
/// that every handler gets a copy of.
#[derive(Debug, PartialEq, Eq)]
pub enum Action<C, S> {
    /// Start a handler on this connection, with this copy of the shared state.
    Spawn(C, S),
    /// The connection came after the loop stopped admitting: it gets no handler.
    Refuse(C),
    /// The loop has just left `Accepting`: close the listeners.
    CloseListeners,
    /// Nothing to perform.
    Continue,
}

/// What the loop suspends on next.
#[derive(Clone, Copy, Debug, PartialEq, Eq, Structural)]
pub enum Wait {
    /// The shutdown signal, the listeners and the worker pool, whichever is ready first.
    AnySource,
    /// The worker pool alone.
    Completion,
    /// Nothing: the loop has stopped.
    Nothing,
}

impl<C, E> Event<C, E> {
    /// Whether the event is the end of a handler that failed.
    pub open spec fn is_failure(self) -> bool {
        self matches Event::Finished(Err(_))
    }
}

} // verus!
