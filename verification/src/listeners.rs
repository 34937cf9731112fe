//! The listener set: one bound listener per address, or none at all.
//!
//! Binding is the caller's work. The set says which address is next, takes
//! the result of each attempt, and gives the listeners up only when every
//! address has one.

use vstd::prelude::*;

verus! {

/// The state of binding as mathematical values.
pub struct Binding<L, E> {
    /// The number of addresses to bind.
    pub wanted: nat,
    /// The listeners bound so far, in the order of their addresses.
    pub bound: Seq<L>,
    /// The error of the attempt that failed, if one did.
    pub failure: Option<E>,
}

impl<L, E> Binding<L, E> {
    /// Nothing bound yet, `wanted` addresses to go.
    pub open spec fn start(wanted: nat) -> Self {
        Binding { wanted, bound: Seq::empty(), failure: None }
    }

    /// What holds of every state of binding: no more listeners than
    /// addresses, and none left once an attempt has failed.
    pub open spec fn consistent(self) -> bool {
        &&& self.bound.len() <= self.wanted
        &&& (self.failure is Some ==> self.bound.len() == 0)
    }

    /// The index of the address to bind next: addresses are bound in the
    /// order supplied, and none after a failure.
    pub open spec fn pending(self) -> Option<nat> {
        if self.failure is None && self.bound.len() < self.wanted {
            Some(self.bound.len())
        } else {
            None
        }
    }

    /// The state after an attempt at the pending address. A listener joins
    /// the set; an error ends binding and empties the set. With no address
    /// pending the attempt changes nothing.
    pub open spec fn record(self, attempt: Result<L, E>) -> Self {
        if self.pending() is None {
            self
        } else {
            match attempt {
                Ok(listener) => Binding { bound: self.bound.push(listener), ..self },
                Err(error) => Binding { bound: Seq::empty(), failure: Some(error), ..self },
            }
        }
    }

    /// The state after `attempts`, taken in order.
    pub open spec fn record_all(self, attempts: Seq<Result<L, E>>) -> Self
        decreases attempts.len(),
    {
        if attempts.len() == 0 {
            self
        } else {
            self.record_all(attempts.drop_last()).record(attempts.last())
        }
    }

    /// The state of binding `wanted` addresses after `attempts`.
    pub open spec fn after(wanted: nat, attempts: Seq<Result<L, E>>) -> Self {
        Self::start(wanted).record_all(attempts)
    }

    /// The result of binding: unknown while an address is pending, then all
    /// the listeners or the error.
    pub open spec fn result(self) -> Option<Result<Seq<L>, E>> {
        if self.pending() is Some {
            None
        } else {
            Some(
                match self.failure {
                    Some(error) => Err(error),
                    None => Ok(self.bound),
                },
            )
        }
    }
}

/// The listeners of one server. `L` is the listener type and `E` the error
/// type of the embedding runtime.
pub struct ListenerSet<L, E> {
    wanted: usize,
    bound: Vec<L>,
    failure: Option<E>,
}

impl<L, E> ListenerSet<L, E> {
    /// The set as mathematical values.
    pub closed spec fn view(&self) -> Binding<L, E> {
        Binding { wanted: self.wanted as nat, bound: self.bound@, failure: self.failure }
    }

    /// The set's invariant; every set made by `new` and changed through the
    /// methods below has it.
    pub open spec fn wf(&self) -> bool {
        self@.consistent()
    }

    /// An empty set for `wanted` addresses.
    pub fn new(wanted: usize) -> (set: ListenerSet<L, E>)
        ensures
            set.wf(),
            set@ == Binding::<L, E>::start(wanted as nat),
    {
        ListenerSet { wanted, bound: Vec::new(), failure: None }
    }

    /// The number of listeners bound so far.
    pub fn len(&self) -> (n: usize)
        ensures
            n == self@.bound.len(),
    {
        self.bound.len()
    }

    /// The index of the address to bind next, if any is left.
    pub fn next_address(&self) -> (next: Option<usize>)
        ensures
            next is Some == self@.pending() is Some,
            next is Some ==> next->0 == self@.pending()->0,
    {
        if self.failure.is_none() && self.bound.len() < self.wanted {
            Some(self.bound.len())
        } else {
            None
        }
    }

    /// Takes the result of the attempt at the pending address.
    pub fn record(&mut self, attempt: Result<L, E>)
        requires
            old(self).wf(),
        ensures
            final(self).wf(),
            final(self)@ == old(self)@.record(attempt),
    {
        if self.failure.is_none() && self.bound.len() < self.wanted {
            match attempt {
                Ok(listener) => {
                    self.bound.push(listener);
                },
                Err(error) => {
                    self.bound = Vec::new();
                    self.failure = Some(error);
                },
            }
        }
    }

    /// The result of binding: `None` while an address is pending, then every
    /// listener in the order of the addresses, or the error of the attempt
    /// that failed.
    pub fn finish(self) -> (result: Option<Result<Vec<L>, E>>)
        ensures
            match (result, self@.result()) {
                (None, None) => true,
                (Some(Ok(listeners)), Some(Ok(bound))) => listeners@ == bound,
                (Some(Err(error)), Some(Err(failure))) => error == failure,
                _ => false,
            },
    {
        if self.failure.is_none() && self.bound.len() < self.wanted {
            None
        } else {
            match self.failure {
                Some(error) => Some(Err(error)),
                None => Some(Ok(self.bound)),
            }
        }
    }
}

/// While every attempt succeeds, the set holds the listeners in the order of
/// the attempts, one per address, and is complete exactly when it has one
/// for each address. Attempts beyond the last address are not taken.
pub proof fn lemma_binds_in_order<L, E>(wanted: nat, attempts: Seq<Result<L, E>>)
    requires
        forall|j: int| 0 <= j < attempts.len() ==> #[trigger] attempts[j] is Ok,
    ensures
        Binding::after(wanted, attempts).consistent(),
        Binding::after(wanted, attempts).wanted == wanted,
        Binding::after(wanted, attempts).failure is None,
        Binding::after(wanted, attempts).bound.len() == if attempts.len() <= wanted {
            attempts.len()
        } else {
            wanted
        },
        forall|j: int|
            0 <= j < attempts.len() && j < wanted ==> #[trigger] Binding::after(
                wanted,
                attempts,
            ).bound[j] == attempts[j]->Ok_0,
        Binding::after(wanted, attempts).result() is Some <==> attempts.len() >= wanted,
        attempts.len() >= wanted ==> Binding::after(wanted, attempts).result() == Some(
            Ok::<Seq<L>, E>(Binding::after(wanted, attempts).bound),
        ),
    decreases attempts.len(),
{
    if attempts.len() > 0 {
        let earlier = attempts.drop_last();
        assert forall|j: int| 0 <= j < earlier.len() implies #[trigger] earlier[j] is Ok by {
            assert(earlier[j] == attempts[j]);
        }
        lemma_binds_in_order(wanted, earlier);
        let before = Binding::after(wanted, earlier);
        let after = before.record(attempts.last());
        assert forall|j: int| 0 <= j < attempts.len() && j < wanted implies #[trigger] after.bound[j]
            == attempts[j]->Ok_0 by {
            if j < earlier.len() {
                assert(earlier[j] == attempts[j]);
                assert(after.bound[j] == before.bound[j]);
            }
        }
    }
}

/// The first attempt that fails ends binding: the result of the whole is its
/// error, no listener is kept, and no later attempt is taken.
pub proof fn lemma_first_failure_aborts<L, E>(wanted: nat, attempts: Seq<Result<L, E>>, i: int)
    requires
        0 <= i < attempts.len(),
        i < wanted,
        attempts[i] is Err,
        forall|j: int| 0 <= j < i ==> #[trigger] attempts[j] is Ok,
    ensures
        Binding::after(wanted, attempts).failure == Some(attempts[i]->Err_0),
        Binding::after(wanted, attempts).bound.len() == 0,
        Binding::after(wanted, attempts).pending() is None,
        Binding::after(wanted, attempts).result() == Some(Err::<Seq<L>, E>(attempts[i]->Err_0)),
    decreases attempts.len(),
{
    let earlier = attempts.drop_last();
    if i == attempts.len() - 1 {
        assert forall|j: int| 0 <= j < earlier.len() implies #[trigger] earlier[j] is Ok by {
            assert(earlier[j] == attempts[j]);
        }
        lemma_binds_in_order(wanted, earlier);
    } else {
        assert(earlier[i] == attempts[i]);
        assert forall|j: int| 0 <= j < i implies #[trigger] earlier[j] is Ok by {
            assert(earlier[j] == attempts[j]);
        }
        lemma_first_failure_aborts(wanted, earlier, i);
    }
}

} // verus!
