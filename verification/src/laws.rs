//! Laws of the server loop's lifecycle, proved of the transition system in `model`.

use vstd::prelude::*;
use crate::event::{Action, Event};
use crate::model::LoopState;
use crate::phase::Phase;

verus! {

/// The number of connections among `events`.
pub open spec fn arrivals<C, E>(events: Seq<Event<C, E>>) -> nat
    decreases events.len(),
{
    if events.len() == 0 {
        0
    } else {
        arrivals(events.drop_last()) + if events.last() is Connection {
            1nat
        } else {
            0nat
        }
    }
}

/// The number of handler completions among `events`.
pub open spec fn completions<C, E>(events: Seq<Event<C, E>>) -> nat
    decreases events.len(),
{
    if events.len() == 0 {
        0
    } else {
        completions(events.drop_last()) + if events.last() is Finished {
            1nat
        } else {
            0nat
        }
    }
}

/// Whether every completion among `events` can belong to a connection that
/// came before it: no prefix holds more completions than connections.
pub open spec fn causal<C, E>(events: Seq<Event<C, E>>) -> bool {
    forall|k: int|
        0 <= k <= events.len() ==> completions(#[trigger] events.take(k)) <= arrivals(
            events.take(k),
        )
}

/// One step keeps the invariant, never moves the phase backwards, keeps a
/// fatal error once it is held, and leaves the shared state alone.
pub proof fn lemma_step_preserves<C, S, E>(s: LoopState<S, E>, event: Event<C, E>)
    requires
        s.consistent(),
    ensures
        s.on(event).consistent(),
        s.settle().consistent(),
        s.phase.rank() <= s.on(event).phase.rank(),
        s.phase.rank() <= s.settle().phase.rank(),
        s.failure is Some ==> s.on(event).failure == s.failure,
        s.settle().failure == s.failure,
        s.on(event).state == s.state,
        s.settle().state == s.state,
{
}

/// The invariant holds at every instant of a run: the pool holds what was
/// admitted and has not completed, and it is empty once the loop has stopped.
/// Along a run the phase never moves backwards, the first fatal error stays
/// the first, and the shared state stays what it was.
pub proof fn lemma_run_preserves<C, S, E>(s: LoopState<S, E>, events: Seq<Event<C, E>>)
    requires
        s.consistent(),
    ensures
        s.run(events).consistent(),
        s.run(events).in_flight == s.run(events).accepted - s.run(events).completed,
        s.run(events).phase == Phase::Stopped ==> s.run(events).in_flight == 0,
        s.phase.rank() <= s.run(events).phase.rank(),
        s.failure is Some ==> s.run(events).failure == s.failure,
        s.run(events).state == s.state,
    decreases events.len(),
{
    if events.len() > 0 {
        lemma_run_preserves(s, events.drop_last());
        let before = s.run(events.drop_last());
        lemma_step_preserves(before, events.last());
        lemma_step_preserves(before.on(events.last()), events.last());
    }
}

/// A stopped loop is terminal: no event and no look at the pool changes it.
pub proof fn lemma_stopped_is_terminal<C, S, E>(s: LoopState<S, E>, events: Seq<Event<C, E>>)
    requires
        s.phase == Phase::Stopped,
    ensures
        s.settle() == s,
        s.run(events) == s,
        forall|event: Event<C, E>| #[trigger] s.on(event) == s,
    decreases events.len(),
{
    if events.len() > 0 {
        lemma_stopped_is_terminal(s, events.drop_last());
    }
}

/// A connection is counted exactly when it is given a handler: the count of
/// admitted connections and the pool grow by one at a `Spawn`, which is owed
/// to a connection that comes while the loop accepts, and to nothing else;
/// at no other answer does the count change.
pub proof fn lemma_admitted_iff_spawned<C, S: Clone, E>(
    s: LoopState<S, E>,
    event: Event<C, E>,
    action: Action<C, S>,
)
    requires
        s.answers(event, action),
    ensures
        action is Spawn <==> event is Connection && s.phase == Phase::Accepting,
        action is Spawn ==> s.on(event).accepted == s.accepted + 1,
        action is Spawn ==> s.on(event).in_flight == s.in_flight + 1,
        !(action is Spawn) ==> s.on(event).accepted == s.accepted,
{
}

/// While clients connect and their handlers succeed, the loop keeps
/// accepting and its counts are the counts of what happened: as many
/// admitted as connections arrived, as many completed as handlers finished,
/// and in the pool the difference. So with `n` clients the pool holds `n`
/// when all have connected and none has finished, and is empty, with `n`
/// completions counted, once all have finished.
pub proof fn lemma_pool_counts_clients<C, S, E>(state: S, events: Seq<Event<C, E>>)
    requires
        forall|i: int|
            0 <= i < events.len() ==> #[trigger] events[i] is Connection
                || events[i] matches Event::Finished(Ok(_)),
        causal(events),
    ensures
        LoopState::<S, E>::initial(state).run(events).phase == Phase::Accepting,
        LoopState::<S, E>::initial(state).run(events).accepted == arrivals(events),
        LoopState::<S, E>::initial(state).run(events).completed == completions(events),
        LoopState::<S, E>::initial(state).run(events).in_flight == arrivals(events)
            - completions(events),
        arrivals(events) == completions(events) ==> LoopState::<S, E>::initial(state).run(
            events,
        ).in_flight == 0,
    decreases events.len(),
{
    if events.len() > 0 {
        let earlier = events.drop_last();
        assert forall|k: int| 0 <= k <= earlier.len() implies completions(
            #[trigger] earlier.take(k),
        ) <= arrivals(earlier.take(k)) by {
            assert(earlier.take(k) == events.take(k));
        }
        lemma_pool_counts_clients(state, earlier);
        assert(events.take(events.len() as int) == events);
    }
}

/// A draining loop admits nothing, whatever arrives. Of its `m` handlers in
/// flight it has, after `events`, observed as many completions as `events`
/// hold, up to `m`, and it has stopped exactly if those were all `m`.
pub proof fn lemma_drain_counts<C, S, E>(d: LoopState<S, E>, events: Seq<Event<C, E>>)
    requires
        d.consistent(),
        d.phase == Phase::Draining,
    ensures
        d.run(events).accepted == d.accepted,
        d.run(events).in_flight + d.run(events).completed == d.in_flight + d.completed,
        d.run(events).completed == d.completed + if completions(events) <= d.in_flight {
            completions(events)
        } else {
            d.in_flight
        },
        d.run(events).phase == if completions(events) >= d.in_flight {
            Phase::Stopped
        } else {
            Phase::Draining
        },
    decreases events.len(),
{
    if events.len() > 0 {
        lemma_drain_counts(d, events.drop_last());
    }
}

/// When the shutdown signal resolves with `m` handlers in flight, the loop
/// goes to `Draining` with the same `m` in its pool and has its listeners
/// closed. From then on it admits no connection, whatever arrives, and the
/// run has an outcome exactly when `m` completions have been observed: not
/// before all that were in flight have finished, be it with success or not.
pub proof fn lemma_shutdown_drains<C, S, E>(s: LoopState<S, E>, events: Seq<Event<C, E>>)
    requires
        s.consistent(),
        s.phase == Phase::Accepting,
    ensures
        s.on(Event::<C, E>::Shutdown).phase == Phase::Draining,
        s.on(Event::<C, E>::Shutdown).in_flight == s.in_flight,
        s.closes_on(Event::<C, E>::Shutdown),
        s.on(Event::<C, E>::Shutdown).run(events).accepted == s.accepted,
        s.on(Event::<C, E>::Shutdown).run(events).phase != Phase::Accepting,
        s.on(Event::<C, E>::Shutdown).run(events).phase == Phase::Stopped <==> completions(events)
            >= s.in_flight,
        s.on(Event::<C, E>::Shutdown).run(events).outcome() is Some <==> completions(events)
            >= s.in_flight,
        s.on(Event::<C, E>::Shutdown).run(events).phase == Phase::Stopped ==> s.on(
            Event::<C, E>::Shutdown,
        ).run(events).completed == s.completed + s.in_flight,
{
    lemma_drain_counts(s.on(Event::<C, E>::Shutdown), events);
}

/// With a shutdown signal that never resolves, and listeners that stay open,
/// the loop leaves `Accepting` only on an accept error or on a handler's
/// failure; and each of the two does end the accept phase.
pub proof fn lemma_pending_signal_keeps_accepting<C, S, E>(
    s: LoopState<S, E>,
    events: Seq<Event<C, E>>,
)
    requires
        s.consistent(),
        s.phase == Phase::Accepting,
        forall|i: int| 0 <= i < events.len() ==> !(#[trigger] events[i] is Shutdown),
        forall|i: int| 0 <= i < events.len() ==> !(#[trigger] events[i] is ListenersClosed),
    ensures
        s.run(events).phase != Phase::Accepting ==> exists|i: int|
            0 <= i < events.len() && (#[trigger] events[i] is AcceptFailed
                || events[i].is_failure()),
        forall|error: E|
            (#[trigger] s.on(Event::<C, E>::AcceptFailed(error))).phase == Phase::Draining,
        forall|error: E|
            s.in_flight > 0 ==> (#[trigger] s.on(Event::<C, E>::Finished(Err(error)))).phase
                == Phase::Draining,
    decreases events.len(),
{
    if events.len() > 0 {
        let earlier = events.drop_last();
        lemma_pending_signal_keeps_accepting(s, earlier);
        if s.run(earlier).phase != Phase::Accepting {
            let i = choose|i: int|
                0 <= i < earlier.len() && (#[trigger] earlier[i] is AcceptFailed
                    || earlier[i].is_failure());
            assert(events[i] == earlier[i]);
        } else if s.run(events).phase != Phase::Accepting {
            let last = events.len() - 1;
            assert(events[last] is AcceptFailed || events[last].is_failure());
        }
    }
}

/// The shutdown signal counts once: a loop that has taken it takes a second
/// one without any change.
pub proof fn lemma_signal_counts_once<C, S, E>(s: LoopState<S, E>)
    ensures
        s.on(Event::<C, E>::Shutdown).on(Event::<C, E>::Shutdown) == s.on(
            Event::<C, E>::Shutdown,
        ),
        s.phase != Phase::Accepting ==> s.on(Event::<C, E>::Shutdown) == s,
{
}

} // verus!
